//! The typed gateway events and their update rules.
//!
//! Each dispatch-class frame decodes into one of these event types. An
//! event that names a subject entity carries an update rule: what the
//! dispatcher must do to the stored copy of that entity. The rules are
//! stated as specifications on the [`UpdateMessage`] trait and proved of
//! each implementation.

use vstd::prelude::*;

use crate::entities::{
    Activity, AuditLogEntry, ClientStatusObject, Emoji, Guild, GuildMember, GuildScheduledEvent,
    Interaction, PublicUser, RoleObject, Sticker, UnavailableGuild, UserStatus,
};
use crate::snowflake::Snowflake;

verus! {

/// Received on gateway init; tells the client how often to heartbeat.
#[derive(Debug, Clone, Copy, PartialEq, Eq, Hash, Structural)]
pub struct GatewayHello {
    pub op: i32,
    pub d: HelloData,
}

/// How often the client should send heartbeats, in milliseconds.
#[derive(Debug, Clone, Copy, PartialEq, Eq, Hash, Structural)]
pub struct HelloData {
    pub heartbeat_interval: u64,
}

/// Sent by the client to update its status and presence.
#[derive(Debug, Clone, PartialEq)]
pub struct UpdatePresence {
    /// Unix time at which the client went idle, if it is idle.
    pub since: Option<u128>,
    pub status: UserStatus,
    pub activities: Vec<Activity>,
    pub afk: bool,
}

/// Received when a user updates their presence or status.
#[derive(Debug, Clone, PartialEq)]
pub struct PresenceUpdate {
    pub user: Option<PublicUser>,
    pub guild_id: Option<Snowflake>,
    pub status: UserStatus,
    pub activities: Vec<Activity>,
    pub client_status: Option<ClientStatusObject>,
}

/// Received when a user invokes an application command.
#[derive(Debug, Clone, PartialEq)]
pub struct InteractionCreate {
    pub interaction: Interaction,
}

/// An event that names a subject entity and carries an update rule for it.
///
/// `update_rule` is the rule itself: how the stored entity after the
/// update relates to the one before. `update` applies it in place and is
/// proved against the rule; the event itself comes through unchanged, so
/// it can still be delivered to subscribers afterwards.
pub trait UpdateMessage<T>: Sized {
    /// The identity of the entity the event updates, if it names one.
    spec fn spec_id(&self) -> Option<Snowflake>;

    /// The identity of the entity the event updates, if it names one.
    fn id(&self) -> (r: Option<Snowflake>)
        ensures
            r == self.spec_id(),
    ;

    /// The event's update rule.
    spec fn update_rule(&self, stored: T, updated: T) -> bool;

    /// Applies the update rule to a stored entity, in place.
    fn update(&mut self, write: &mut T)
        ensures
            *final(self) == *old(self),
            old(self).update_rule(*old(write), *final(write)),
    ;
}

/// Received to give data about a guild, either a full guild object or an
/// unavailable stub.
#[derive(Debug, Clone, PartialEq)]
pub struct GuildCreate {
    pub d: GuildCreateDataOption,
    pub source_url: String,
    pub json: String,
}

/// The two shapes a guild-create event may carry.
#[derive(Debug, Clone, PartialEq)]
pub enum GuildCreateDataOption {
    UnavailableGuild(UnavailableGuild),
    Guild(Guild),
}

impl Default for GuildCreateDataOption {
    /// A blank unavailable stub.
    fn default() -> (r: Self)
        ensures
            r == GuildCreateDataOption::UnavailableGuild(
                UnavailableGuild { id: Snowflake(0), unavailable: false },
            ),
    {
        GuildCreateDataOption::UnavailableGuild(UnavailableGuild::default())
    }
}

impl UpdateMessage<Guild> for GuildCreate {
    open spec fn spec_id(&self) -> Option<Snowflake> {
        match self.d {
            GuildCreateDataOption::UnavailableGuild(u) => Some(u.id),
            GuildCreateDataOption::Guild(g) => Some(g.id),
        }
    }

    fn id(&self) -> Option<Snowflake> {
        match &self.d {
            GuildCreateDataOption::UnavailableGuild(u) => Some(u.id),
            GuildCreateDataOption::Guild(g) => Some(g.id),
        }
    }

    /// A guild already observed keeps its stored copy: the store's copy is
    /// preferred over a create event's payload.
    open spec fn update_rule(&self, stored: Guild, updated: Guild) -> bool {
        updated == stored
    }

    fn update(&mut self, write: &mut Guild) {
    }
}

/// Received when a guild is updated.
#[derive(Debug, Clone, PartialEq)]
pub struct GuildUpdate {
    pub guild: Guild,
    pub source_url: String,
    pub json: String,
}

impl UpdateMessage<Guild> for GuildUpdate {
    open spec fn spec_id(&self) -> Option<Snowflake> {
        Some(self.guild.id)
    }

    fn id(&self) -> Option<Snowflake> {
        Some(self.guild.id)
    }

    /// The stored guild is replaced by the one the event carries.
    open spec fn update_rule(&self, stored: Guild, updated: Guild) -> bool {
        updated.like(self.guild)
    }

    fn update(&mut self, write: &mut Guild) {
        *write = self.guild.clone();
    }
}

/// Received when a guild is deleted or becomes unavailable.
#[derive(Debug, Clone, PartialEq)]
pub struct GuildDelete {
    pub guild: UnavailableGuild,
    pub source_url: String,
    pub json: String,
}

impl UpdateMessage<Guild> for GuildDelete {
    open spec fn spec_id(&self) -> Option<Snowflake> {
        Some(self.guild.id)
    }

    fn id(&self) -> Option<Snowflake> {
        Some(self.guild.id)
    }

    /// The stored guild is marked unavailable; its contents are kept.
    open spec fn update_rule(&self, stored: Guild, updated: Guild) -> bool {
        updated == (Guild { unavailable: updated.unavailable, ..stored }) && updated.unavailable
            == Some(true)
    }

    fn update(&mut self, write: &mut Guild) {
        write.unavailable = Some(true);
    }
}

/// Received when a user is banned from a guild.
#[derive(Debug, Clone, PartialEq)]
pub struct GuildBanAdd {
    pub guild_id: Snowflake,
    pub user: PublicUser,
}

/// Received when a user is unbanned.
#[derive(Debug, Clone, PartialEq)]
pub struct GuildBanRemove {
    pub guild_id: Snowflake,
    pub user: PublicUser,
}

/// Received when an audit log entry is added.
#[derive(Debug, Clone, PartialEq)]
pub struct GuildAuditLogEntryCreate {
    pub entry: AuditLogEntry,
}

/// Received when a guild's emoji list changes.
#[derive(Debug, Clone, PartialEq)]
pub struct GuildEmojisUpdate {
    pub guild_id: Snowflake,
    pub emojis: Vec<Emoji>,
}

/// Received when a guild's sticker list changes.
#[derive(Debug, Clone, PartialEq)]
pub struct GuildStickersUpdate {
    pub guild_id: Snowflake,
    pub stickers: Vec<Sticker>,
}

/// Received when a guild's integrations change.
#[derive(Debug, Clone, Copy, PartialEq, Eq, Hash, Structural)]
pub struct GuildIntegrationsUpdate {
    pub guild_id: Snowflake,
}

/// Received when a user joins a guild.
#[derive(Debug, Clone, PartialEq)]
pub struct GuildMemberAdd {
    pub member: GuildMember,
    pub guild_id: Snowflake,
}

/// Received when a user leaves a guild.
#[derive(Debug, Clone, PartialEq)]
pub struct GuildMemberRemove {
    pub guild_id: Snowflake,
    pub user: PublicUser,
}

/// Received when a member of a guild changes.
#[derive(Debug, Clone, PartialEq)]
pub struct GuildMemberUpdate {
    pub guild_id: Snowflake,
    pub roles: Vec<Snowflake>,
    pub user: PublicUser,
    pub nick: Option<String>,
    pub avatar: Option<String>,
    /// Milliseconds since the Unix epoch.
    pub joined_at: Option<i64>,
    /// Milliseconds since the Unix epoch.
    pub premium_since: Option<i64>,
    pub deaf: Option<bool>,
    pub mute: Option<bool>,
    pub pending: Option<bool>,
    /// Milliseconds since the Unix epoch.
    pub communication_disabled_until: Option<i64>,
}

/// One chunk of a requested member list.
#[derive(Debug, Clone, PartialEq)]
pub struct GuildMembersChunk {
    pub guild_id: Snowflake,
    pub members: Vec<GuildMember>,
    pub chunk_index: u16,
    pub chunk_count: u16,
    pub not_found: Option<Vec<Snowflake>>,
    pub presences: Option<Vec<PresenceUpdate>>,
    pub nonce: Option<String>,
}

/// Received when a role is created in a guild.
#[derive(Debug, Clone, PartialEq)]
pub struct GuildRoleCreate {
    pub guild_id: Snowflake,
    pub role: RoleObject,
    pub json: String,
    pub source_url: String,
}

/// Received when a role of a guild changes.
#[derive(Debug, Clone, PartialEq)]
pub struct GuildRoleUpdate {
    pub guild_id: Snowflake,
    pub role: RoleObject,
    pub json: String,
    pub source_url: String,
}

/// Received when a role is deleted from a guild.
#[derive(Debug, Clone, Copy, PartialEq, Eq, Hash, Structural)]
pub struct GuildRoleDelete {
    pub guild_id: Snowflake,
    pub role_id: Snowflake,
}

/// Received when an event is scheduled in a guild.
#[derive(Debug, Clone, PartialEq)]
pub struct GuildScheduledEventCreate {
    pub event: GuildScheduledEvent,
}

/// Received when a scheduled event changes.
#[derive(Debug, Clone, PartialEq)]
pub struct GuildScheduledEventUpdate {
    pub event: GuildScheduledEvent,
}

/// Received when a scheduled event is cancelled or removed.
#[derive(Debug, Clone, PartialEq)]
pub struct GuildScheduledEventDelete {
    pub event: GuildScheduledEvent,
}

/// Received when a user subscribes to a scheduled event.
#[derive(Debug, Clone, Copy, PartialEq, Eq, Hash, Structural)]
pub struct GuildScheduledEventUserAdd {
    pub guild_scheduled_event_id: Snowflake,
    pub user_id: Snowflake,
    pub guild_id: Snowflake,
}

/// Received when a user unsubscribes from a scheduled event.
#[derive(Debug, Clone, Copy, PartialEq, Eq, Hash, Structural)]
pub struct GuildScheduledEventUserRemove {
    pub guild_scheduled_event_id: Snowflake,
    pub user_id: Snowflake,
    pub guild_id: Snowflake,
}

/// Every guild-scoped event the gateway knows.
#[derive(Debug, Clone, PartialEq)]
pub enum GuildEvents {
    Create(GuildCreate),
    Update(GuildUpdate),
    Delete(GuildDelete),
    BanAdd(GuildBanAdd),
    BanRemove(GuildBanRemove),
    EmojisUpdate(GuildEmojisUpdate),
    StickersUpdate(GuildStickersUpdate),
    IntegrationsUpdate(GuildIntegrationsUpdate),
    MemberAdd(GuildMemberAdd),
    MemberRemove(GuildMemberRemove),
    MemberUpdate(GuildMemberUpdate),
    MembersChunk(GuildMembersChunk),
    RoleCreate(GuildRoleCreate),
    RoleUpdate(GuildRoleUpdate),
    RoleDelete(GuildRoleDelete),
    ScheduledEventCreate(GuildScheduledEventCreate),
    ScheduledEventUpdate(GuildScheduledEventUpdate),
    ScheduledEventDelete(GuildScheduledEventDelete),
    ScheduledEventUserAdd(GuildScheduledEventUserAdd),
    ScheduledEventUserRemove(GuildScheduledEventUserRemove),
    AuditLogEntryCreate(GuildAuditLogEntryCreate),
}

/// The position of the first role with identity `id`, if any.
pub open spec fn spec_first_role_index(roles: Seq<RoleObject>, id: Snowflake) -> Option<int>
    decreases roles.len(),
{
    if roles.len() == 0 {
        None
    } else if roles[0].id == id {
        Some(0)
    } else {
        match spec_first_role_index(roles.drop_first(), id) {
            Some(i) => Some(i + 1),
            None => None,
        }
    }
}

/// What [`spec_first_role_index`] finds is the first match; when it finds
/// nothing, there is none.
pub proof fn lemma_first_role_index_characterization(roles: Seq<RoleObject>, id: Snowflake)
    ensures
        match spec_first_role_index(roles, id) {
            Some(i) => 0 <= i < roles.len() && roles[i].id == id && (forall|j: int|
                0 <= j < i ==> roles[j].id != id),
            None => forall|j: int| 0 <= j < roles.len() ==> roles[j].id != id,
        },
    decreases roles.len(),
{
    if roles.len() > 0 {
        if roles[0].id != id {
            lemma_first_role_index_characterization(roles.drop_first(), id);
            assert forall|j: int|
                1 <= j < roles.len() implies roles[j] == roles.drop_first()[j - 1] by {}
        }
    }
}

/// What a role-update event does to a role list: the first entry with the
/// role's identity is replaced; a list without that identity is untouched.
pub open spec fn spec_replace_role(roles: Seq<RoleObject>, role: RoleObject) -> Seq<RoleObject> {
    match spec_first_role_index(roles, role.id) {
        Some(i) => roles.update(i, role),
        None => roles,
    }
}

/// What a role-delete event does to a role list: the first entry with the
/// identity is removed; a list without it is untouched.
pub open spec fn spec_remove_role(roles: Seq<RoleObject>, id: Snowflake) -> Seq<RoleObject> {
    match spec_first_role_index(roles, id) {
        Some(i) => roles.remove(i),
        None => roles,
    }
}

/// How many entries of a role list carry identity `id`.
pub open spec fn spec_count_role(roles: Seq<RoleObject>, id: Snowflake) -> nat
    decreases roles.len(),
{
    if roles.len() == 0 {
        0
    } else {
        (if roles[0].id == id {
            1nat
        } else {
            0nat
        }) + spec_count_role(roles.drop_first(), id)
    }
}

/// Appending one role raises the count of its identity by one and leaves
/// every other count alone.
pub proof fn lemma_count_role_push(roles: Seq<RoleObject>, role: RoleObject, id: Snowflake)
    ensures
        spec_count_role(roles.push(role), id) == spec_count_role(roles, id) + (if role.id == id {
            1nat
        } else {
            0nat
        }),
    decreases roles.len(),
{
    if roles.len() == 0 {
        assert(roles.push(role)[0] == role);
        assert(roles.push(role).drop_first() =~= Seq::<RoleObject>::empty());
        assert(spec_count_role(roles.push(role).drop_first(), id) == 0);
    } else {
        assert(roles.push(role)[0] == roles[0]);
        assert(roles.push(role).drop_first() =~= roles.drop_first().push(role));
        lemma_count_role_push(roles.drop_first(), role, id);
    }
}

/// A list counts an identity zero times exactly when no entry carries it.
pub proof fn lemma_count_role_zero(roles: Seq<RoleObject>, id: Snowflake)
    ensures
        (spec_count_role(roles, id) == 0) <==> (forall|j: int|
            0 <= j < roles.len() ==> roles[j].id != id),
    decreases roles.len(),
{
    if roles.len() > 0 {
        lemma_count_role_zero(roles.drop_first(), id);
        assert forall|j: int|
            1 <= j < roles.len() implies roles[j] == roles.drop_first()[j - 1] by {}
        if roles[0].id != id && spec_count_role(roles.drop_first(), id) == 0 {
            assert forall|j: int| 0 <= j < roles.len() implies roles[j].id != id by {
                if j > 0 {
                    assert(roles[j] == roles.drop_first()[j - 1]);
                }
            }
        }
    }
}

impl UpdateMessage<Guild> for GuildRoleCreate {
    open spec fn spec_id(&self) -> Option<Snowflake> {
        Some(self.guild_id)
    }

    fn id(&self) -> Option<Snowflake> {
        Some(self.guild_id)
    }

    /// The role is appended to the guild's role list; everything else is
    /// kept.
    open spec fn update_rule(&self, stored: Guild, updated: Guild) -> bool {
        updated == (Guild { roles: updated.roles, ..stored }) && updated.roles@ == stored.roles@
            .push(self.role)
    }

    fn update(&mut self, write: &mut Guild) {
        write.roles.push(self.role.clone());
    }
}

impl UpdateMessage<Guild> for GuildRoleUpdate {
    open spec fn spec_id(&self) -> Option<Snowflake> {
        Some(self.guild_id)
    }

    fn id(&self) -> Option<Snowflake> {
        Some(self.guild_id)
    }

    /// The entry of the guild's role list matching the role's identity is
    /// replaced; everything else is kept.
    open spec fn update_rule(&self, stored: Guild, updated: Guild) -> bool {
        updated == (Guild { roles: updated.roles, ..stored }) && updated.roles@
            == spec_replace_role(stored.roles@, self.role)
    }

    fn update(&mut self, write: &mut Guild) {
        proof {
            lemma_first_role_index_characterization(write.roles@, self.role.id);
        }
        let n = write.roles.len();
        let mut k: usize = 0;
        while k < n
            invariant
                k <= n,
                n == write.roles@.len(),
                *write == *old(write),
                forall|j: int| 0 <= j < k ==> write.roles@[j].id != self.role.id,
                *self == *old(self),
            decreases n - k,
        {
            if write.roles[k].id == self.role.id {
                proof {
                    lemma_first_role_index_characterization(write.roles@, self.role.id);
                }
                write.roles[k] = self.role.clone();
                return ;
            }
            k += 1;
        }
        proof {
            lemma_first_role_index_characterization(write.roles@, self.role.id);
        }
    }
}

impl UpdateMessage<RoleObject> for GuildRoleUpdate {
    open spec fn spec_id(&self) -> Option<Snowflake> {
        Some(self.role.id)
    }

    fn id(&self) -> Option<Snowflake> {
        Some(self.role.id)
    }

    /// An observed role is replaced outright by the one the event carries.
    open spec fn update_rule(&self, stored: RoleObject, updated: RoleObject) -> bool {
        updated == self.role
    }

    fn update(&mut self, write: &mut RoleObject) {
        *write = self.role.clone();
    }
}

impl UpdateMessage<Guild> for GuildRoleDelete {
    open spec fn spec_id(&self) -> Option<Snowflake> {
        Some(self.guild_id)
    }

    fn id(&self) -> Option<Snowflake> {
        Some(self.guild_id)
    }

    /// The entry of the guild's role list matching the deleted identity is
    /// removed; everything else is kept.
    open spec fn update_rule(&self, stored: Guild, updated: Guild) -> bool {
        updated == (Guild { roles: updated.roles, ..stored }) && updated.roles@ == spec_remove_role(
            stored.roles@,
            self.role_id,
        )
    }

    fn update(&mut self, write: &mut Guild) {
        proof {
            lemma_first_role_index_characterization(write.roles@, self.role_id);
        }
        let n = write.roles.len();
        let mut k: usize = 0;
        while k < n
            invariant
                k <= n,
                n == write.roles@.len(),
                *write == *old(write),
                forall|j: int| 0 <= j < k ==> write.roles@[j].id != self.role_id,
                *self == *old(self),
            decreases n - k,
        {
            if write.roles[k].id == self.role_id {
                proof {
                    lemma_first_role_index_characterization(write.roles@, self.role_id);
                }
                write.roles.remove(k);
                return ;
            }
            k += 1;
        }
        proof {
            lemma_first_role_index_characterization(write.roles@, self.role_id);
        }
    }
}

/// The lifecycle of one role, as the dispatcher's rules play it out on a
/// guild's role list: creating a fresh role adds exactly one entry for its
/// identity, renaming it keeps exactly one, and deleting it leaves the
/// list exactly as it began.
pub proof fn lemma_role_lifecycle(roles: Seq<RoleObject>, fresh: RoleObject, renamed: RoleObject)
    requires
        forall|j: int| 0 <= j < roles.len() ==> roles[j].id != fresh.id,
        renamed.id == fresh.id,
    ensures
        ({
            let after_create = roles.push(fresh);
            let after_update = spec_replace_role(after_create, renamed);
            let after_delete = spec_remove_role(after_update, fresh.id);
            &&& spec_count_role(after_create, fresh.id) == 1
            &&& after_update =~= roles.push(renamed)
            &&& spec_count_role(after_update, fresh.id) == 1
            &&& after_delete =~= roles
            &&& spec_count_role(after_delete, fresh.id) == 0
        }),
{
    let id = fresh.id;
    let after_create = roles.push(fresh);
    lemma_count_role_zero(roles, id);
    lemma_count_role_push(roles, fresh, id);
    lemma_first_role_index_characterization(after_create, id);
    match spec_first_role_index(after_create, id) {
        Some(i) => {
            assert(i == roles.len());
        },
        None => {
            assert(after_create[roles.len() as int].id == id);
        },
    }
    let after_update = spec_replace_role(after_create, renamed);
    assert(after_update =~= roles.push(renamed));
    lemma_count_role_push(roles, renamed, id);
    assert(spec_count_role(roles.push(renamed), id) == 1);
    lemma_first_role_index_characterization(after_update, id);
    match spec_first_role_index(after_update, id) {
        Some(i) => {
            assert(i == roles.len());
            assert(after_update.remove(i) =~= roles);
        },
        None => {
            assert(after_update[roles.len() as int].id == id);
        },
    }
    lemma_count_role_zero(roles, id);
}

} // verus!
