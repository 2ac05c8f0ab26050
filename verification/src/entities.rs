//! The platform's entities: guilds, roles, users and their companions.
//!
//! These are data carriers; the behavior lives in the gateway modules.
//! Moments in time are held as milliseconds since the Unix epoch, the form
//! the gateway logic can reason about; turning wire timestamps into
//! milliseconds is the transport layer's concern.

use vstd::prelude::*;

use crate::interfaces::WelcomeScreenObject;
use crate::snowflake::Snowflake;

verus! {

/// The public face of a user: what other members of a guild may see.
#[derive(Debug, Clone, PartialEq, Eq)]
pub struct PublicUser {
    pub id: Snowflake,
    pub username: Option<String>,
    pub discriminator: Option<String>,
    pub avatar: Option<String>,
    pub bot: Option<bool>,
}

/// A user's membership in one guild.
#[derive(Debug, Clone, PartialEq, Eq)]
pub struct GuildMember {
    pub user: Option<PublicUser>,
    pub nick: Option<String>,
    pub roles: Vec<Snowflake>,
    /// When the member joined, in milliseconds since the Unix epoch.
    pub joined_at: Option<i64>,
    pub deaf: bool,
    pub mute: bool,
}

/// A custom emoji of a guild.
#[derive(Debug, PartialEq, Eq)]
pub struct Emoji {
    pub id: Snowflake,
    pub name: Option<String>,
    pub animated: Option<bool>,
    pub available: Option<bool>,
}

impl Clone for Emoji {
    /// An exact copy.
    fn clone(&self) -> (r: Self)
        ensures
            r == *self,
    {
        Emoji {
            id: self.id,
            name: self.name.clone(),
            animated: self.animated,
            available: self.available,
        }
    }
}

/// A sticker of a guild.
#[derive(Debug, Clone, PartialEq, Eq)]
pub struct Sticker {
    pub id: Snowflake,
    pub name: String,
    pub tags: Option<String>,
    pub format_type: u8,
}

/// One entry of a guild's audit log.
#[derive(Debug, Clone, PartialEq, Eq)]
pub struct AuditLogEntry {
    pub id: Snowflake,
    pub user_id: Option<Snowflake>,
    pub target_id: Option<String>,
    pub action_type: u8,
}

/// A role of a guild.
#[derive(Debug, PartialEq, Eq)]
pub struct RoleObject {
    pub id: Snowflake,
    pub name: String,
    pub position: u16,
    pub permissions: Option<String>,
}

impl Clone for RoleObject {
    /// An exact copy.
    fn clone(&self) -> (r: Self)
        ensures
            r == *self,
    {
        RoleObject {
            id: self.id,
            name: self.name.clone(),
            position: self.position,
            permissions: self.permissions.clone(),
        }
    }
}

/// A guild: the entity the gateway keeps most of its observations on.
#[derive(Debug, PartialEq, Eq)]
pub struct Guild {
    pub id: Snowflake,
    pub name: Option<String>,
    pub icon: Option<String>,
    pub owner_id: Option<Snowflake>,
    pub afk_timeout: Option<u8>,
    pub verification_level: Option<u8>,
    pub roles: Vec<RoleObject>,
    pub emojis: Vec<Emoji>,
    pub features: Option<Vec<String>>,
    pub max_members: Option<u64>,
    pub description: Option<String>,
    pub premium_tier: Option<u8>,
    pub member_count: Option<u64>,
    pub welcome_screen: Option<WelcomeScreenObject>,
    pub nsfw: Option<bool>,
    /// When this client joined, as wire text.
    pub joined_at: String,
    pub large: Option<bool>,
    pub mfa_level: Option<u8>,
    pub region: Option<String>,
    /// Set when the server declares the guild unavailable.
    pub unavailable: Option<bool>,
}

impl Guild {
    /// Attribute-for-attribute equality of two guilds, looking through the
    /// role, emoji, feature and welcome-screen lists (the lists may be
    /// distinct allocations).
    pub open spec fn like(self, other: Guild) -> bool {
        &&& self.id == other.id
        &&& self.name == other.name
        &&& self.icon == other.icon
        &&& self.owner_id == other.owner_id
        &&& self.afk_timeout == other.afk_timeout
        &&& self.verification_level == other.verification_level
        &&& self.roles@ == other.roles@
        &&& self.emojis@ == other.emojis@
        &&& match (self.features, other.features) {
            (Option::Some(a), Option::Some(b)) => a@ == b@,
            (Option::None, Option::None) => true,
            _ => false,
        }
        &&& self.max_members == other.max_members
        &&& self.description == other.description
        &&& self.premium_tier == other.premium_tier
        &&& self.member_count == other.member_count
        &&& match (self.welcome_screen, other.welcome_screen) {
            (Option::Some(a), Option::Some(b)) => crate::interfaces::welcome_screen_like(a, b),
            (Option::None, Option::None) => true,
            _ => false,
        }
        &&& self.nsfw == other.nsfw
        &&& self.joined_at == other.joined_at
        &&& self.large == other.large
        &&& self.mfa_level == other.mfa_level
        &&& self.region == other.region
        &&& self.unavailable == other.unavailable
    }
}

impl Clone for Guild {
    /// A copy equal attribute for attribute.
    fn clone(&self) -> (r: Self)
        ensures
            r.like(*self),
    {
        let roles = self.roles.clone();
        proof {
            assert forall|i: int| 0 <= i < roles@.len() implies roles@[i] == self.roles@[i] by {}
            assert(roles@ =~= self.roles@);
        }
        let emojis = self.emojis.clone();
        proof {
            assert forall|i: int| 0 <= i < emojis@.len() implies emojis@[i] == self.emojis@[i] by {}
            assert(emojis@ =~= self.emojis@);
        }
        let features = match &self.features {
            Option::Some(v) => {
                let copy = v.clone();
                proof {
                    assert forall|i: int| 0 <= i < copy@.len() implies copy@[i] == v@[i] by {}
                    assert(copy@ =~= v@);
                }
                Option::Some(copy)
            },
            Option::None => Option::None,
        };
        let welcome_screen = match &self.welcome_screen {
            Option::Some(w) => Option::Some(w.clone()),
            Option::None => Option::None,
        };
        Guild {
            id: self.id,
            name: self.name.clone(),
            icon: self.icon.clone(),
            owner_id: self.owner_id,
            afk_timeout: self.afk_timeout,
            verification_level: self.verification_level,
            roles,
            emojis,
            features,
            max_members: self.max_members,
            description: self.description.clone(),
            premium_tier: self.premium_tier,
            member_count: self.member_count,
            welcome_screen,
            nsfw: self.nsfw,
            joined_at: self.joined_at.clone(),
            large: self.large,
            mfa_level: self.mfa_level,
            region: self.region.clone(),
            unavailable: self.unavailable,
        }
    }
}

impl Default for Guild {
    /// A blank guild: identifier zero, every attribute absent, no roles and
    /// no emojis.
    fn default() -> (r: Self)
        ensures
            r.id == (Snowflake(0)),
            r.name is None,
            r.icon is None,
            r.owner_id is None,
            r.afk_timeout is None,
            r.verification_level is None,
            r.roles@ =~= Seq::<RoleObject>::empty(),
            r.emojis@ =~= Seq::<Emoji>::empty(),
            r.features is None,
            r.max_members is None,
            r.description is None,
            r.premium_tier is None,
            r.member_count is None,
            r.welcome_screen is None,
            r.nsfw is None,
            r.joined_at@ == Seq::<char>::empty(),
            r.large is None,
            r.mfa_level is None,
            r.region is None,
            r.unavailable is None,
    {
        Guild {
            id: Snowflake(0),
            name: None,
            icon: None,
            owner_id: None,
            afk_timeout: None,
            verification_level: None,
            roles: Vec::new(),
            emojis: Vec::new(),
            features: None,
            max_members: None,
            description: None,
            premium_tier: None,
            member_count: None,
            welcome_screen: None,
            nsfw: None,
            joined_at: String::new(),
            large: None,
            mfa_level: None,
            region: None,
            unavailable: None,
        }
    }
}

/// A ban pronounced in a guild.
#[derive(Debug, Clone, PartialEq, Eq)]
pub struct GuildBan {
    pub id: Snowflake,
    pub user_id: Snowflake,
    pub guild_id: Snowflake,
    pub executor_id: Snowflake,
    pub reason: Option<String>,
}

/// An invite into a guild.
#[derive(Debug, Clone, PartialEq, Eq)]
pub struct GuildInvite {
    pub code: String,
    pub temporary: Option<bool>,
    pub uses: Option<i32>,
    pub max_uses: Option<i32>,
    pub max_age: Option<i32>,
    /// When the invite was created, in milliseconds since the Unix epoch.
    pub created_at: i64,
    /// When the invite lapses, in milliseconds since the Unix epoch.
    pub expires_at: Option<i64>,
    pub guild_id: String,
    pub channel_id: String,
    pub inviter_id: Option<String>,
    pub vanity_url: Option<bool>,
}

/// The stub the server sends for a guild it will not describe: only the
/// identifier and the fact of unavailability.
#[derive(Debug, Clone, Copy, PartialEq, Eq, Structural)]
pub struct UnavailableGuild {
    pub id: Snowflake,
    pub unavailable: bool,
}

impl Default for UnavailableGuild {
    /// A blank stub: identifier zero, not marked unavailable.
    fn default() -> (r: Self)
        ensures
            r == (UnavailableGuild { id: Snowflake(0), unavailable: false }),
    {
        UnavailableGuild { id: Snowflake(0), unavailable: false }
    }
}

/// What the server answers when a guild is created over the REST surface.
#[derive(Debug, Clone, PartialEq, Eq)]
pub struct GuildCreateResponse {
    pub id: String,
}

/// Who may see a scheduled event.
#[derive(Debug, Clone, Copy, PartialEq, Eq, Structural)]
pub enum GuildScheduledEventPrivacyLevel {
    GuildOnly,
}

impl GuildScheduledEventPrivacyLevel {
    /// The wire number of the level.
    pub open spec fn spec_value(self) -> u8 {
        match self {
            GuildScheduledEventPrivacyLevel::GuildOnly => 2,
        }
    }

    /// The wire number of the level.
    pub fn value(&self) -> (r: u8)
        ensures
            r == self.spec_value(),
    {
        match self {
            GuildScheduledEventPrivacyLevel::GuildOnly => 2,
        }
    }

    /// The level a wire number names, if any.
    pub fn from_value(v: u8) -> (r: Option<Self>)
        ensures
            match r {
                Some(level) => level.spec_value() == v,
                None => v != 2,
            },
    {
        if v == 2 {
            Some(GuildScheduledEventPrivacyLevel::GuildOnly)
        } else {
            None
        }
    }
}

impl Default for GuildScheduledEventPrivacyLevel {
    /// Events are guild-only out of the box.
    fn default() -> (r: Self)
        ensures
            r == GuildScheduledEventPrivacyLevel::GuildOnly,
    {
        GuildScheduledEventPrivacyLevel::GuildOnly
    }
}

/// Where a scheduled event stands in its life.
#[derive(Debug, Clone, Copy, PartialEq, Eq, Structural)]
pub enum GuildScheduledEventStatus {
    Scheduled,
    Active,
    Completed,
    Canceled,
}

impl GuildScheduledEventStatus {
    /// The wire number of the status.
    pub open spec fn spec_value(self) -> u8 {
        match self {
            GuildScheduledEventStatus::Scheduled => 1,
            GuildScheduledEventStatus::Active => 2,
            GuildScheduledEventStatus::Completed => 3,
            GuildScheduledEventStatus::Canceled => 4,
        }
    }

    /// The wire number of the status.
    pub fn value(&self) -> (r: u8)
        ensures
            r == self.spec_value(),
    {
        match self {
            GuildScheduledEventStatus::Scheduled => 1,
            GuildScheduledEventStatus::Active => 2,
            GuildScheduledEventStatus::Completed => 3,
            GuildScheduledEventStatus::Canceled => 4,
        }
    }

    /// The status a wire number names, if any.
    pub fn from_value(v: u8) -> (r: Option<Self>)
        ensures
            match r {
                Some(status) => status.spec_value() == v,
                None => !(1 <= v <= 4),
            },
    {
        match v {
            1 => Some(GuildScheduledEventStatus::Scheduled),
            2 => Some(GuildScheduledEventStatus::Active),
            3 => Some(GuildScheduledEventStatus::Completed),
            4 => Some(GuildScheduledEventStatus::Canceled),
            _ => None,
        }
    }
}

impl Default for GuildScheduledEventStatus {
    /// A fresh event is merely scheduled.
    fn default() -> (r: Self)
        ensures
            r == GuildScheduledEventStatus::Scheduled,
    {
        GuildScheduledEventStatus::Scheduled
    }
}

/// What kind of place a scheduled event happens in.
#[derive(Debug, Clone, Copy, PartialEq, Eq, Structural)]
pub enum GuildScheduledEventEntityType {
    StageInstance,
    Voice,
    External,
}

impl GuildScheduledEventEntityType {
    /// The wire number of the kind.
    pub open spec fn spec_value(self) -> u8 {
        match self {
            GuildScheduledEventEntityType::StageInstance => 1,
            GuildScheduledEventEntityType::Voice => 2,
            GuildScheduledEventEntityType::External => 3,
        }
    }

    /// The wire number of the kind.
    pub fn value(&self) -> (r: u8)
        ensures
            r == self.spec_value(),
    {
        match self {
            GuildScheduledEventEntityType::StageInstance => 1,
            GuildScheduledEventEntityType::Voice => 2,
            GuildScheduledEventEntityType::External => 3,
        }
    }

    /// The kind a wire number names, if any.
    pub fn from_value(v: u8) -> (r: Option<Self>)
        ensures
            match r {
                Some(kind) => kind.spec_value() == v,
                None => !(1 <= v <= 3),
            },
    {
        match v {
            1 => Some(GuildScheduledEventEntityType::StageInstance),
            2 => Some(GuildScheduledEventEntityType::Voice),
            3 => Some(GuildScheduledEventEntityType::External),
            _ => None,
        }
    }
}

impl Default for GuildScheduledEventEntityType {
    /// Stage instance, the first kind the protocol knew.
    fn default() -> (r: Self)
        ensures
            r == GuildScheduledEventEntityType::StageInstance,
    {
        GuildScheduledEventEntityType::StageInstance
    }
}

/// Where an external scheduled event happens.
#[derive(Debug, Clone, PartialEq, Eq)]
pub struct GuildScheduledEventEntityMetadata {
    pub location: Option<String>,
}

/// An event scheduled in a guild.
#[derive(Debug, Clone, PartialEq, Eq)]
pub struct GuildScheduledEvent {
    pub id: String,
    pub guild_id: String,
    pub channel_id: Option<String>,
    pub creator_id: Option<String>,
    pub name: String,
    pub description: String,
    /// Start of the event, in milliseconds since the Unix epoch.
    pub scheduled_start_time: i64,
    /// End of the event, in milliseconds since the Unix epoch.
    pub scheduled_end_time: Option<i64>,
    pub privacy_level: GuildScheduledEventPrivacyLevel,
    pub status: GuildScheduledEventStatus,
    pub entity_type: GuildScheduledEventEntityType,
    pub entity_id: Option<String>,
    pub entity_metadata: Option<GuildScheduledEventEntityMetadata>,
    pub user_count: Option<u64>,
    pub image: Option<String>,
}

/// A hardware security key registered for a user.
#[derive(Debug, Clone, PartialEq, Eq)]
pub struct SecurityKey {
    pub id: String,
    pub user_id: String,
    pub key_id: String,
    pub public_key: String,
    pub counter: u64,
    pub name: String,
}

impl Default for SecurityKey {
    /// A fresh key record: a newly minted identifier — the decimal text
    /// of the snowflake for some clock reading, so never empty — with
    /// every other attribute blank and the counter at zero.
    fn default() -> (r: Self)
        ensures
            exists|ms: int|
                r.id@ == crate::snowflake::decimal_digits(
                    crate::snowflake::snowflake_of_millis(ms) as nat,
                ),
            r.id@.len() >= 1,
            r.user_id@ == Seq::<char>::empty(),
            r.key_id@ == Seq::<char>::empty(),
            r.public_key@ == Seq::<char>::empty(),
            r.counter == 0,
            r.name@ == Seq::<char>::empty(),
    {
        let minted = Snowflake::generate();
        let id = minted.to_string();
        proof {
            let ms = choose|ms: int|
                minted.0 == crate::snowflake::snowflake_of_millis(ms);
            assert(id@ == crate::snowflake::decimal_digits(
                crate::snowflake::snowflake_of_millis(ms) as nat,
            ));
        }
        SecurityKey {
            id,
            user_id: String::new(),
            key_id: String::new(),
            public_key: String::new(),
            counter: 0,
            name: String::new(),
        }
    }
}

/// A user's standing in voice: which channel, muted or deafened, and so on.
#[derive(Debug, Clone, PartialEq, Eq)]
pub struct VoiceState {
    pub guild_id: Option<Snowflake>,
    pub channel_id: Option<Snowflake>,
    pub user_id: Snowflake,
    pub session_id: Snowflake,
    pub token: Option<String>,
    pub deaf: bool,
    pub mute: bool,
    pub self_deaf: bool,
    pub self_mute: bool,
    pub self_stream: Option<bool>,
    pub self_video: bool,
    pub suppress: bool,
    /// When the user asked to speak, in milliseconds since the Unix epoch.
    pub request_to_speak_timestamp: Option<i64>,
    pub id: Option<Snowflake>,
}

/// How a user presents themselves.
#[derive(Debug, Clone, Copy, PartialEq, Eq, Structural)]
pub enum UserStatus {
    Online,
    Offline,
    Dnd,
    Idle,
    Invisible,
}

impl Default for UserStatus {
    /// A presence starts out online.
    fn default() -> (r: Self)
        ensures
            r == UserStatus::Online,
    {
        UserStatus::Online
    }
}

/// One activity a user advertises in their presence.
#[derive(Debug, Clone, PartialEq, Eq)]
pub struct Activity {
    pub name: String,
    pub activity_type: u8,
    pub url: Option<String>,
}

/// A user's presence, split by platform.
#[derive(Debug, Clone, PartialEq, Eq)]
pub struct ClientStatusObject {
    pub desktop: Option<String>,
    pub mobile: Option<String>,
    pub web: Option<String>,
}

/// A user's invocation of an application command.
#[derive(Debug, Clone, PartialEq, Eq)]
pub struct Interaction {
    pub id: Snowflake,
    pub application_id: Option<Snowflake>,
    pub interaction_type: u8,
    pub guild_id: Option<Snowflake>,
    pub channel_id: Option<Snowflake>,
    pub token: String,
}

} // verus!
