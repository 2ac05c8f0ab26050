use chorus::entities::{
    Guild, GuildScheduledEventEntityType, GuildScheduledEventPrivacyLevel,
    GuildScheduledEventStatus, RoleObject, UnavailableGuild,
};
use chorus::snowflake::Snowflake;

#[test]
fn privacy_level_wire_numbers() {
    assert_eq!(GuildScheduledEventPrivacyLevel::GuildOnly.value(), 2);
    assert_eq!(
        GuildScheduledEventPrivacyLevel::from_value(2),
        Some(GuildScheduledEventPrivacyLevel::GuildOnly)
    );
    assert_eq!(GuildScheduledEventPrivacyLevel::from_value(1), None);
    assert_eq!(
        GuildScheduledEventPrivacyLevel::default(),
        GuildScheduledEventPrivacyLevel::GuildOnly
    );
}

#[test]
fn status_wire_numbers_round_trip() {
    let all = [
        GuildScheduledEventStatus::Scheduled,
        GuildScheduledEventStatus::Active,
        GuildScheduledEventStatus::Completed,
        GuildScheduledEventStatus::Canceled,
    ];
    for s in all {
        assert_eq!(GuildScheduledEventStatus::from_value(s.value()), Some(s));
    }
    assert_eq!(GuildScheduledEventStatus::Scheduled.value(), 1);
    assert_eq!(GuildScheduledEventStatus::Canceled.value(), 4);
    assert_eq!(GuildScheduledEventStatus::from_value(0), None);
    assert_eq!(GuildScheduledEventStatus::from_value(5), None);
}

#[test]
fn entity_type_wire_numbers_round_trip() {
    let all = [
        GuildScheduledEventEntityType::StageInstance,
        GuildScheduledEventEntityType::Voice,
        GuildScheduledEventEntityType::External,
    ];
    for t in all {
        assert_eq!(GuildScheduledEventEntityType::from_value(t.value()), Some(t));
    }
    assert_eq!(GuildScheduledEventEntityType::External.value(), 3);
    assert_eq!(GuildScheduledEventEntityType::from_value(4), None);
}

#[test]
fn unavailable_guild_default_is_blank() {
    let u = UnavailableGuild::default();
    assert_eq!(u.id, Snowflake(0));
    assert!(!u.unavailable);
}

#[test]
fn guild_default_is_blank() {
    let g = Guild::default();
    assert_eq!(g.id, Snowflake(0));
    assert!(g.name.is_none());
    assert!(g.roles.is_empty());
    assert!(g.unavailable.is_none());
}

#[test]
fn guild_clone_copies_every_attribute() {
    let mut g = Guild::default();
    g.id = Snowflake(7);
    g.name = Some("den".to_string());
    g.roles.push(RoleObject {
        id: Snowflake(9),
        name: "mods".to_string(),
        position: 1,
        permissions: Some("8".to_string()),
    });
    g.features = Some(vec!["BANNER".to_string()]);
    let copy = g.clone();
    assert_eq!(copy, g);
}
