use chorus::dispatcher::{
    apply_update, classify_event_name, dispatch_event, dispatch_guild_event, EventKind,
};
use chorus::entities::{Guild, RoleObject, UnavailableGuild};
use chorus::events::{
    GuildCreate, GuildCreateDataOption, GuildDelete, GuildEvents, GuildRoleCreate,
    GuildRoleDelete, GuildRoleUpdate, GuildUpdate,
};
use chorus::session::DispatchPayload;
use chorus::snowflake::Snowflake;
use chorus::store::ObservableStore;

fn guild(id: u64) -> Guild {
    let mut g = Guild::default();
    g.id = Snowflake(id);
    g
}

fn role(id: u64, name: &str) -> RoleObject {
    RoleObject { id: Snowflake(id), name: name.to_string(), position: 0, permissions: None }
}

#[test]
fn every_known_event_name_classifies() {
    let cases = [
        ("READY", EventKind::Ready),
        ("RESUMED", EventKind::Resumed),
        ("GUILD_CREATE", EventKind::GuildCreate),
        ("GUILD_UPDATE", EventKind::GuildUpdate),
        ("GUILD_DELETE", EventKind::GuildDelete),
        ("GUILD_BAN_ADD", EventKind::GuildBanAdd),
        ("GUILD_BAN_REMOVE", EventKind::GuildBanRemove),
        ("GUILD_AUDIT_LOG_ENTRY_CREATE", EventKind::GuildAuditLogEntryCreate),
        ("GUILD_EMOJIS_UPDATE", EventKind::GuildEmojisUpdate),
        ("GUILD_STICKERS_UPDATE", EventKind::GuildStickersUpdate),
        ("GUILD_INTEGRATIONS_UPDATE", EventKind::GuildIntegrationsUpdate),
        ("GUILD_MEMBER_ADD", EventKind::GuildMemberAdd),
        ("GUILD_MEMBER_REMOVE", EventKind::GuildMemberRemove),
        ("GUILD_MEMBER_UPDATE", EventKind::GuildMemberUpdate),
        ("GUILD_MEMBERS_CHUNK", EventKind::GuildMembersChunk),
        ("GUILD_ROLE_CREATE", EventKind::GuildRoleCreate),
        ("GUILD_ROLE_UPDATE", EventKind::GuildRoleUpdate),
        ("GUILD_ROLE_DELETE", EventKind::GuildRoleDelete),
        ("GUILD_SCHEDULED_EVENT_CREATE", EventKind::GuildScheduledEventCreate),
        ("GUILD_SCHEDULED_EVENT_UPDATE", EventKind::GuildScheduledEventUpdate),
        ("GUILD_SCHEDULED_EVENT_DELETE", EventKind::GuildScheduledEventDelete),
        ("GUILD_SCHEDULED_EVENT_USER_ADD", EventKind::GuildScheduledEventUserAdd),
        ("GUILD_SCHEDULED_EVENT_USER_REMOVE", EventKind::GuildScheduledEventUserRemove),
        ("INTERACTION_CREATE", EventKind::InteractionCreate),
        ("PRESENCE_UPDATE", EventKind::PresenceUpdate),
    ];
    for (name, kind) in cases {
        assert_eq!(classify_event_name(name), Some(kind), "{name}");
    }
}

#[test]
fn unknown_event_names_classify_to_nothing() {
    assert_eq!(classify_event_name("FUTURE_EVENT_X"), None);
    assert_eq!(classify_event_name(""), None);
    assert_eq!(classify_event_name("ready"), None);
    assert_eq!(classify_event_name("GUILD_CREATE "), None);
}

#[test]
fn role_lifecycle_on_an_observed_guild() {
    let mut store: ObservableStore<Guild> = ObservableStore::new();
    let g = Snowflake(1);
    let h = store.observe(guild(1));

    // Create: the role is appended.
    let create = GuildEvents::RoleCreate(GuildRoleCreate {
        guild_id: g,
        role: role(10, "alpha"),
        json: String::new(),
        source_url: String::new(),
    });
    let (_, applied) = dispatch_guild_event(&mut store, create);
    assert!(applied);
    assert_eq!(store.get(h).roles, vec![role(10, "alpha")]);

    // Update: the entry with the role's identity is replaced, no
    // duplicate appears.
    let update = GuildEvents::RoleUpdate(GuildRoleUpdate {
        guild_id: g,
        role: role(10, "beta"),
        json: String::new(),
        source_url: String::new(),
    });
    let (_, applied) = dispatch_guild_event(&mut store, update);
    assert!(applied);
    assert_eq!(store.get(h).roles, vec![role(10, "beta")]);

    // Delete: the list ends up free of the role.
    let delete = GuildEvents::RoleDelete(GuildRoleDelete { guild_id: g, role_id: Snowflake(10) });
    let (_, applied) = dispatch_guild_event(&mut store, delete);
    assert!(applied);
    assert!(store.get(h).roles.is_empty());
}

#[test]
fn role_events_for_an_unobserved_guild_change_nothing() {
    let mut store: ObservableStore<Guild> = ObservableStore::new();
    let create = GuildEvents::RoleCreate(GuildRoleCreate {
        guild_id: Snowflake(404),
        role: role(10, "alpha"),
        json: String::new(),
        source_url: String::new(),
    });
    let (_, applied) = dispatch_guild_event(&mut store, create);
    assert!(!applied);
    assert_eq!(store.len(), 0);
}

#[test]
fn guild_create_inserts_a_fresh_observable() {
    let mut store: ObservableStore<Guild> = ObservableStore::new();
    let mut g = guild(3);
    g.name = Some("fresh".to_string());
    let create = GuildEvents::Create(GuildCreate {
        d: GuildCreateDataOption::Guild(g),
        source_url: String::new(),
        json: String::new(),
    });
    let (_, applied) = dispatch_guild_event(&mut store, create);
    assert!(applied);
    assert_eq!(store.len(), 1);
    let h = store.find(Snowflake(3)).unwrap();
    assert_eq!(store.get(h).name, Some("fresh".to_string()));
}

#[test]
fn guild_create_for_an_observed_guild_keeps_the_stored_copy() {
    let mut store: ObservableStore<Guild> = ObservableStore::new();
    let mut stored = guild(3);
    stored.name = Some("kept".to_string());
    let h = store.observe(stored);
    let mut incoming = guild(3);
    incoming.name = Some("discarded".to_string());
    let create = GuildEvents::Create(GuildCreate {
        d: GuildCreateDataOption::Guild(incoming),
        source_url: String::new(),
        json: String::new(),
    });
    let (_, applied) = dispatch_guild_event(&mut store, create);
    assert!(applied);
    assert_eq!(store.len(), 1);
    assert_eq!(store.get(h).name, Some("kept".to_string()));
}

#[test]
fn unavailable_guild_create_inserts_a_placeholder() {
    let mut store: ObservableStore<Guild> = ObservableStore::new();
    let create = GuildEvents::Create(GuildCreate {
        d: GuildCreateDataOption::UnavailableGuild(UnavailableGuild {
            id: Snowflake(8),
            unavailable: true,
        }),
        source_url: String::new(),
        json: String::new(),
    });
    dispatch_guild_event(&mut store, create);
    let h = store.find(Snowflake(8)).unwrap();
    assert_eq!(store.get(h).id, Snowflake(8));
    assert_eq!(store.get(h).unavailable, Some(true));
    assert!(store.get(h).roles.is_empty());
}

#[test]
fn guild_delete_marks_unavailable_without_clearing_contents() {
    let mut store: ObservableStore<Guild> = ObservableStore::new();
    let mut g = guild(5);
    g.name = Some("den".to_string());
    g.roles.push(role(1, "everyone"));
    let h = store.observe(g);
    let delete = GuildEvents::Delete(GuildDelete {
        guild: UnavailableGuild { id: Snowflake(5), unavailable: true },
        source_url: String::new(),
        json: String::new(),
    });
    let (_, applied) = dispatch_guild_event(&mut store, delete);
    assert!(applied);
    assert_eq!(store.get(h).unavailable, Some(true));
    assert_eq!(store.get(h).name, Some("den".to_string()));
    assert_eq!(store.get(h).roles.len(), 1);
}

#[test]
fn guild_update_replaces_the_stored_guild() {
    let mut store: ObservableStore<Guild> = ObservableStore::new();
    let h = store.observe(guild(5));
    let mut g = guild(5);
    g.name = Some("renamed".to_string());
    let update = GuildEvents::Update(GuildUpdate {
        guild: g,
        source_url: String::new(),
        json: String::new(),
    });
    let (_, applied) = dispatch_guild_event(&mut store, update);
    assert!(applied);
    assert_eq!(store.get(h).name, Some("renamed".to_string()));
}

#[test]
fn role_update_rewrites_an_observed_role() {
    // Beside the guild's role list, an observed role itself is kept
    // fresh: the update event replaces its value outright.
    let mut store: ObservableStore<RoleObject> = ObservableStore::new();
    let h = store.observe(role(10, "alpha"));
    let mut msg = GuildRoleUpdate {
        guild_id: Snowflake(1),
        role: role(10, "beta"),
        json: String::new(),
        source_url: String::new(),
    };
    let applied = apply_update::<RoleObject, GuildRoleUpdate>(&mut store, &mut msg);
    assert!(applied);
    assert_eq!(*store.get(h), role(10, "beta"));

    // An update for a role nobody observes changes nothing.
    let mut other = GuildRoleUpdate {
        guild_id: Snowflake(1),
        role: role(11, "gamma"),
        json: String::new(),
        source_url: String::new(),
    };
    let applied = apply_update::<RoleObject, GuildRoleUpdate>(&mut store, &mut other);
    assert!(!applied);
    assert_eq!(store.len(), 1);
}

#[test]
fn guild_create_data_option_default_is_an_unavailable_stub() {
    let d = GuildCreateDataOption::default();
    assert_eq!(
        d,
        GuildCreateDataOption::UnavailableGuild(UnavailableGuild {
            id: Snowflake(0),
            unavailable: false,
        })
    );
}

#[test]
fn dispatch_event_hands_every_event_back_for_delivery() {
    let mut store: ObservableStore<Guild> = ObservableStore::new();
    let payload = DispatchPayload::Unknown { event_name: "FUTURE_EVENT_X".to_string() };
    let (back, applied) = dispatch_event(&mut store, payload.clone());
    assert_eq!(back, payload);
    assert!(!applied);
    assert_eq!(store.len(), 0);

    let guild_payload = DispatchPayload::Guild(GuildEvents::RoleDelete(GuildRoleDelete {
        guild_id: Snowflake(1),
        role_id: Snowflake(2),
    }));
    let (back, applied) = dispatch_event(&mut store, guild_payload.clone());
    assert_eq!(back, guild_payload);
    assert!(!applied);
}
