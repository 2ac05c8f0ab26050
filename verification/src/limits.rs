//! Rate-limit configuration: the buckets an instance throttles requests by
//! and the default quota of each bucket.

use std::collections::HashMap;
use vstd::prelude::*;

use crate::snowflake::Snowflake;

verus! {

broadcast use vstd::std_specs::hash::group_hash_axioms;

/// The quota of one rate-limit bucket: how many requests fit in a window of
/// how many seconds.
#[derive(Debug, Clone, Copy, PartialEq, Eq, Hash, Structural)]
pub struct RateLimitOptions {
    /// A separate count for bot accounts, where one applies.
    pub bot: Option<u64>,
    /// How many requests the window admits.
    pub count: u64,
    /// The window length in seconds.
    pub window: u64,
    /// Whether the bucket is keyed by address alone.
    pub only_ip: bool,
}

/// Quotas for the authentication routes.
#[derive(Debug, Clone, Copy, PartialEq, Eq, Hash, Structural)]
pub struct AuthRateLimit {
    pub login: RateLimitOptions,
    pub register: RateLimitOptions,
}

impl Default for AuthRateLimit {
    /// Five logins a minute; two registrations every twelve hours.
    fn default() -> (r: Self)
        ensures
            r.login == (RateLimitOptions { bot: None, count: 5, window: 60, only_ip: false }),
            r.register == (RateLimitOptions {
                bot: None,
                count: 2,
                window: 43200,
                only_ip: false,
            }),
    {
        AuthRateLimit {
            login: RateLimitOptions { bot: None, count: 5, window: 60, only_ip: false },
            register: RateLimitOptions { bot: None, count: 2, window: 43200, only_ip: false },
        }
    }
}

/// Per-route quotas: guild, webhook and channel routes, and the
/// authentication routes.
#[derive(Debug, Clone, Copy, PartialEq, Eq, Hash, Structural)]
pub struct RouteRateLimit {
    pub guild: RateLimitOptions,
    pub webhook: RateLimitOptions,
    pub channel: RateLimitOptions,
    pub auth: AuthRateLimit,
}

impl Default for RouteRateLimit {
    /// Five guild requests and ten webhook or channel requests every five
    /// seconds.
    fn default() -> (r: Self)
        ensures
            r.guild == (RateLimitOptions { bot: None, count: 5, window: 5, only_ip: false }),
            r.webhook == (RateLimitOptions { bot: None, count: 10, window: 5, only_ip: false }),
            r.channel == (RateLimitOptions { bot: None, count: 10, window: 5, only_ip: false }),
            r.auth.login == (RateLimitOptions { bot: None, count: 5, window: 60, only_ip: false }),
            r.auth.register == (RateLimitOptions {
                bot: None,
                count: 2,
                window: 43200,
                only_ip: false,
            }),
    {
        RouteRateLimit {
            guild: RateLimitOptions { bot: None, count: 5, window: 5, only_ip: false },
            webhook: RateLimitOptions { bot: None, count: 10, window: 5, only_ip: false },
            channel: RateLimitOptions { bot: None, count: 10, window: 5, only_ip: false },
            auth: AuthRateLimit::default(),
        }
    }
}

/// The whole rate-limit table of an instance.
#[derive(Debug, Clone, Copy, PartialEq, Eq, Hash, Structural)]
pub struct RateLimits {
    /// Whether the instance throttles at all.
    pub enabled: bool,
    pub ip: RateLimitOptions,
    pub global: RateLimitOptions,
    pub error: RateLimitOptions,
    pub routes: RouteRateLimit,
}

impl Default for RateLimits {
    /// Throttling is off out of the box; the table still carries the stock
    /// quotas so switching it on needs no further configuration.
    fn default() -> (r: Self)
        ensures
            !r.enabled,
            r.ip == (RateLimitOptions { bot: None, count: 500, window: 5, only_ip: false }),
            r.global == (RateLimitOptions { bot: None, count: 250, window: 5, only_ip: false }),
            r.error == (RateLimitOptions { bot: None, count: 10, window: 5, only_ip: false }),
            r.routes.guild == (RateLimitOptions { bot: None, count: 5, window: 5, only_ip: false }),
            r.routes.webhook == (RateLimitOptions {
                bot: None,
                count: 10,
                window: 5,
                only_ip: false,
            }),
            r.routes.channel == (RateLimitOptions {
                bot: None,
                count: 10,
                window: 5,
                only_ip: false,
            }),
            r.routes.auth.login == (RateLimitOptions {
                bot: None,
                count: 5,
                window: 60,
                only_ip: false,
            }),
            r.routes.auth.register == (RateLimitOptions {
                bot: None,
                count: 2,
                window: 43200,
                only_ip: false,
            }),
    {
        RateLimits {
            enabled: false,
            ip: RateLimitOptions { bot: None, count: 500, window: 5, only_ip: false },
            global: RateLimitOptions { bot: None, count: 250, window: 5, only_ip: false },
            error: RateLimitOptions { bot: None, count: 10, window: 5, only_ip: false },
            routes: RouteRateLimit::default(),
        }
    }
}

/// Which rate-limit bucket a request falls into. Channel, guild and webhook
/// requests carry the entity they touch; the remaining buckets are
/// instance-wide.
#[derive(Debug, Clone, Copy, PartialEq, Eq, Hash, Structural)]
pub enum LimitType {
    AuthLogin,
    AuthRegister,
    ChannelBaseline,
    Channel(Snowflake),
    Error,
    Global,
    Ip,
    WebhookBaseline,
    Webhook(Snowflake),
    GuildBaseline,
    Guild(Snowflake),
}

impl LimitType {
    /// The bucket's key in a quota table. Buckets that carry an entity share
    /// the key of their baseline bucket: the table stores one default quota
    /// per kind of bucket, not one per entity.
    pub open spec fn spec_code(self) -> u64 {
        match self {
            LimitType::AuthLogin => 0,
            LimitType::AuthRegister => 1,
            LimitType::ChannelBaseline => 2,
            LimitType::Channel(_) => 2,
            LimitType::Error => 3,
            LimitType::Global => 4,
            LimitType::Ip => 5,
            LimitType::WebhookBaseline => 6,
            LimitType::Webhook(_) => 6,
            LimitType::GuildBaseline => 7,
            LimitType::Guild(_) => 7,
        }
    }

    /// The bucket's key in a quota table.
    pub fn code(&self) -> (r: u64)
        ensures
            r == self.spec_code(),
    {
        match self {
            LimitType::AuthLogin => 0,
            LimitType::AuthRegister => 1,
            LimitType::ChannelBaseline => 2,
            LimitType::Channel(_) => 2,
            LimitType::Error => 3,
            LimitType::Global => 4,
            LimitType::Ip => 5,
            LimitType::WebhookBaseline => 6,
            LimitType::Webhook(_) => 6,
            LimitType::GuildBaseline => 7,
            LimitType::Guild(_) => 7,
        }
    }
}

impl RateLimits {
    /// The table as a quota lookup: every kind of bucket, keyed by
    /// [`LimitType::code`], mapped to its quota.
    pub fn to_hash_map(&self) -> (m: HashMap<u64, RateLimitOptions>)
        ensures
            m@.dom() =~= set![
                LimitType::AuthLogin.spec_code(),
                LimitType::AuthRegister.spec_code(),
                LimitType::ChannelBaseline.spec_code(),
                LimitType::Error.spec_code(),
                LimitType::Global.spec_code(),
                LimitType::Ip.spec_code(),
                LimitType::WebhookBaseline.spec_code(),
                LimitType::GuildBaseline.spec_code(),
            ],
            m@[LimitType::AuthLogin.spec_code()] == self.routes.auth.login,
            m@[LimitType::AuthRegister.spec_code()] == self.routes.auth.register,
            m@[LimitType::ChannelBaseline.spec_code()] == self.routes.channel,
            m@[LimitType::Error.spec_code()] == self.error,
            m@[LimitType::Global.spec_code()] == self.global,
            m@[LimitType::Ip.spec_code()] == self.ip,
            m@[LimitType::WebhookBaseline.spec_code()] == self.routes.webhook,
            m@[LimitType::GuildBaseline.spec_code()] == self.routes.guild,
    {
        let mut map: HashMap<u64, RateLimitOptions> = HashMap::new();
        map.insert(LimitType::AuthLogin.code(), self.routes.auth.login);
        map.insert(LimitType::AuthRegister.code(), self.routes.auth.register);
        map.insert(LimitType::ChannelBaseline.code(), self.routes.channel);
        map.insert(LimitType::Error.code(), self.error);
        map.insert(LimitType::Global.code(), self.global);
        map.insert(LimitType::Ip.code(), self.ip);
        map.insert(LimitType::WebhookBaseline.code(), self.routes.webhook);
        map.insert(LimitType::GuildBaseline.code(), self.routes.guild);
        map
    }
}

/// Bounds on a single message.
#[derive(Debug, Clone, Copy, PartialEq, Eq, Hash, Structural)]
pub struct MessageLimits {
    pub max_characters: u32,
    pub max_tts_characters: u32,
    pub max_reactions: u32,
    pub max_attachment_size: u64,
    pub max_bulk_delete: u32,
    pub max_embed_download_size: u64,
}

impl Default for MessageLimits {
    /// The stock bounds: a megacharacter of text, a gigabyte per attachment,
    /// five megabytes per downloaded embed.
    fn default() -> (r: Self)
        ensures
            r.max_characters == 1048576,
            r.max_tts_characters == 160,
            r.max_reactions == 2048,
            r.max_attachment_size == 1024 * 1024 * 1024,
            r.max_bulk_delete == 1000,
            r.max_embed_download_size == 1024 * 1024 * 5,
    {
        MessageLimits {
            max_characters: 1048576,
            max_tts_characters: 160,
            max_reactions: 2048,
            max_attachment_size: 1024 * 1024 * 1024,
            max_bulk_delete: 1000,
            max_embed_download_size: 1024 * 1024 * 5,
        }
    }
}

} // verus!
