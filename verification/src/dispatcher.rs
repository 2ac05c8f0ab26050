//! The event dispatcher: classify each dispatch-class frame by its event
//! name, and route the decoded event into the observable store.
//!
//! The event set is closed. Unknown names classify to nothing, which the
//! session drops by design so servers may grow new event kinds. Events
//! that name a subject entity are applied to the store under its
//! identity; create-family events for an entity not yet observed insert
//! a fresh slot instead of silently dropping the update. Every event,
//! applied or not, comes back out for delivery to the subscriber.

use vstd::prelude::*;

use crate::entities::Guild;
use crate::events::{GuildCreateDataOption, GuildEvents, UpdateMessage};
use crate::session::DispatchPayload;
use crate::store::{spec_find_live, ObservableStore, StoreEntry, Updateable};

verus! {

/// Every event kind the dispatcher knows.
#[derive(Debug, Clone, Copy, PartialEq, Eq, Structural)]
pub enum EventKind {
    Ready,
    Resumed,
    GuildCreate,
    GuildUpdate,
    GuildDelete,
    GuildBanAdd,
    GuildBanRemove,
    GuildAuditLogEntryCreate,
    GuildEmojisUpdate,
    GuildStickersUpdate,
    GuildIntegrationsUpdate,
    GuildMemberAdd,
    GuildMemberRemove,
    GuildMemberUpdate,
    GuildMembersChunk,
    GuildRoleCreate,
    GuildRoleUpdate,
    GuildRoleDelete,
    GuildScheduledEventCreate,
    GuildScheduledEventUpdate,
    GuildScheduledEventDelete,
    GuildScheduledEventUserAdd,
    GuildScheduledEventUserRemove,
    InteractionCreate,
    PresenceUpdate,
}

/// The kind a wire event name announces, if the library knows it.
pub open spec fn spec_event_kind_of(name: Seq<char>) -> Option<EventKind> {
    if name == "READY"@ {
        Some(EventKind::Ready)
    } else if name == "RESUMED"@ {
        Some(EventKind::Resumed)
    } else if name == "GUILD_CREATE"@ {
        Some(EventKind::GuildCreate)
    } else if name == "GUILD_UPDATE"@ {
        Some(EventKind::GuildUpdate)
    } else if name == "GUILD_DELETE"@ {
        Some(EventKind::GuildDelete)
    } else if name == "GUILD_BAN_ADD"@ {
        Some(EventKind::GuildBanAdd)
    } else if name == "GUILD_BAN_REMOVE"@ {
        Some(EventKind::GuildBanRemove)
    } else if name == "GUILD_AUDIT_LOG_ENTRY_CREATE"@ {
        Some(EventKind::GuildAuditLogEntryCreate)
    } else if name == "GUILD_EMOJIS_UPDATE"@ {
        Some(EventKind::GuildEmojisUpdate)
    } else if name == "GUILD_STICKERS_UPDATE"@ {
        Some(EventKind::GuildStickersUpdate)
    } else if name == "GUILD_INTEGRATIONS_UPDATE"@ {
        Some(EventKind::GuildIntegrationsUpdate)
    } else if name == "GUILD_MEMBER_ADD"@ {
        Some(EventKind::GuildMemberAdd)
    } else if name == "GUILD_MEMBER_REMOVE"@ {
        Some(EventKind::GuildMemberRemove)
    } else if name == "GUILD_MEMBER_UPDATE"@ {
        Some(EventKind::GuildMemberUpdate)
    } else if name == "GUILD_MEMBERS_CHUNK"@ {
        Some(EventKind::GuildMembersChunk)
    } else if name == "GUILD_ROLE_CREATE"@ {
        Some(EventKind::GuildRoleCreate)
    } else if name == "GUILD_ROLE_UPDATE"@ {
        Some(EventKind::GuildRoleUpdate)
    } else if name == "GUILD_ROLE_DELETE"@ {
        Some(EventKind::GuildRoleDelete)
    } else if name == "GUILD_SCHEDULED_EVENT_CREATE"@ {
        Some(EventKind::GuildScheduledEventCreate)
    } else if name == "GUILD_SCHEDULED_EVENT_UPDATE"@ {
        Some(EventKind::GuildScheduledEventUpdate)
    } else if name == "GUILD_SCHEDULED_EVENT_DELETE"@ {
        Some(EventKind::GuildScheduledEventDelete)
    } else if name == "GUILD_SCHEDULED_EVENT_USER_ADD"@ {
        Some(EventKind::GuildScheduledEventUserAdd)
    } else if name == "GUILD_SCHEDULED_EVENT_USER_REMOVE"@ {
        Some(EventKind::GuildScheduledEventUserRemove)
    } else if name == "INTERACTION_CREATE"@ {
        Some(EventKind::InteractionCreate)
    } else if name == "PRESENCE_UPDATE"@ {
        Some(EventKind::PresenceUpdate)
    } else {
        None
    }
}

/// Whether two pieces of text read the same.
fn str_eq(a: &str, b: &str) -> (r: bool)
    ensures
        r == (a@ == b@),
{
    let left: String = a.to_owned();
    let right: String = b.to_owned();
    left == right
}

/// Classifies a wire event name. `None` means the library does not know
/// the name; the caller drops such an event, it never fails on it.
pub fn classify_event_name(name: &str) -> (r: Option<EventKind>)
    ensures
        r == spec_event_kind_of(name@),
{
    if str_eq(name, "READY") {
        Some(EventKind::Ready)
    } else if str_eq(name, "RESUMED") {
        Some(EventKind::Resumed)
    } else if str_eq(name, "GUILD_CREATE") {
        Some(EventKind::GuildCreate)
    } else if str_eq(name, "GUILD_UPDATE") {
        Some(EventKind::GuildUpdate)
    } else if str_eq(name, "GUILD_DELETE") {
        Some(EventKind::GuildDelete)
    } else if str_eq(name, "GUILD_BAN_ADD") {
        Some(EventKind::GuildBanAdd)
    } else if str_eq(name, "GUILD_BAN_REMOVE") {
        Some(EventKind::GuildBanRemove)
    } else if str_eq(name, "GUILD_AUDIT_LOG_ENTRY_CREATE") {
        Some(EventKind::GuildAuditLogEntryCreate)
    } else if str_eq(name, "GUILD_EMOJIS_UPDATE") {
        Some(EventKind::GuildEmojisUpdate)
    } else if str_eq(name, "GUILD_STICKERS_UPDATE") {
        Some(EventKind::GuildStickersUpdate)
    } else if str_eq(name, "GUILD_INTEGRATIONS_UPDATE") {
        Some(EventKind::GuildIntegrationsUpdate)
    } else if str_eq(name, "GUILD_MEMBER_ADD") {
        Some(EventKind::GuildMemberAdd)
    } else if str_eq(name, "GUILD_MEMBER_REMOVE") {
        Some(EventKind::GuildMemberRemove)
    } else if str_eq(name, "GUILD_MEMBER_UPDATE") {
        Some(EventKind::GuildMemberUpdate)
    } else if str_eq(name, "GUILD_MEMBERS_CHUNK") {
        Some(EventKind::GuildMembersChunk)
    } else if str_eq(name, "GUILD_ROLE_CREATE") {
        Some(EventKind::GuildRoleCreate)
    } else if str_eq(name, "GUILD_ROLE_UPDATE") {
        Some(EventKind::GuildRoleUpdate)
    } else if str_eq(name, "GUILD_ROLE_DELETE") {
        Some(EventKind::GuildRoleDelete)
    } else if str_eq(name, "GUILD_SCHEDULED_EVENT_CREATE") {
        Some(EventKind::GuildScheduledEventCreate)
    } else if str_eq(name, "GUILD_SCHEDULED_EVENT_UPDATE") {
        Some(EventKind::GuildScheduledEventUpdate)
    } else if str_eq(name, "GUILD_SCHEDULED_EVENT_DELETE") {
        Some(EventKind::GuildScheduledEventDelete)
    } else if str_eq(name, "GUILD_SCHEDULED_EVENT_USER_ADD") {
        Some(EventKind::GuildScheduledEventUserAdd)
    } else if str_eq(name, "GUILD_SCHEDULED_EVENT_USER_REMOVE") {
        Some(EventKind::GuildScheduledEventUserRemove)
    } else if str_eq(name, "INTERACTION_CREATE") {
        Some(EventKind::InteractionCreate)
    } else if str_eq(name, "PRESENCE_UPDATE") {
        Some(EventKind::PresenceUpdate)
    } else {
        None
    }
}

/// The store changed in exactly one slot, whose identity and live flag
/// were kept.
pub open spec fn store_updated_at<T>(
    before: Seq<StoreEntry<T>>,
    after: Seq<StoreEntry<T>>,
    i: int,
) -> bool {
    &&& after.len() == before.len()
    &&& forall|j: int| 0 <= j < before.len() && j != i ==> after[j] == before[j]
    &&& after[i].id == before[i].id
    &&& after[i].live == before[i].live
}

/// Applies an event's update rule to the entity it names, if the store
/// observes that identity: the slot's entity is rewritten under the
/// rule, everything else is untouched, and the event comes through
/// unchanged. An event for an unobserved identity changes nothing.
pub fn apply_update<T: Updateable, M: UpdateMessage<T>>(
    store: &mut ObservableStore<T>,
    msg: &mut M,
) -> (applied: bool)
    requires
        old(store).wf(),
    ensures
        final(store).wf(),
        *final(msg) == *old(msg),
        match old(msg).spec_id() {
            Some(id) => match spec_find_live(old(store)@, id) {
                Some(i) => applied && store_updated_at(old(store)@, final(store)@, i) && old(
                    msg,
                ).update_rule(old(store)@[i].value, final(store)@[i].value),
                None => !applied && final(store)@ =~= old(store)@,
            },
            None => !applied && final(store)@ =~= old(store)@,
        },
{
    match msg.id() {
        Some(id) => match store.find(id) {
            Some(h) => {
                let slot = store.get_mut(h);
                msg.update(slot);
                true
            },
            None => false,
        },
        None => false,
    }
}

/// What a fresh slot inserted for an unavailable-guild stub holds: the
/// stub's identity, marked unavailable, with nothing else filled in.
pub open spec fn spec_placeholder_guild(
    u: crate::entities::UnavailableGuild,
    g: Guild,
) -> bool {
    g.id == u.id && g.unavailable == Some(true) && g.name is None && g.roles@
        =~= Seq::<crate::entities::RoleObject>::empty() && g.emojis@
        =~= Seq::<crate::entities::Emoji>::empty()
}

/// What dispatching one guild event does to the store.
pub open spec fn spec_guild_dispatch(
    before: Seq<StoreEntry<Guild>>,
    after: Seq<StoreEntry<Guild>>,
    ev: GuildEvents,
    applied: bool,
) -> bool {
    match ev {
        GuildEvents::Create(m) => match spec_find_live(before, m.spec_id()->0) {
            Some(i) => applied && store_updated_at(before, after, i) && m.update_rule(
                before[i].value,
                after[i].value,
            ),
            None => {
                &&& applied
                &&& after.len() == before.len() + 1
                &&& (forall|j: int| 0 <= j < before.len() ==> after[j] == before[j])
                &&& after.last().live
                &&& after.last().id == m.spec_id()->0
                &&& match m.d {
                    GuildCreateDataOption::Guild(g) => after.last().value.like(g),
                    GuildCreateDataOption::UnavailableGuild(u) => spec_placeholder_guild(
                        u,
                        after.last().value,
                    ),
                }
            },
        },
        GuildEvents::Update(m) => spec_rule_dispatch(before, after, m.spec_id(), applied, |s: Guild, u: Guild| m.update_rule(s, u)),
        GuildEvents::Delete(m) => spec_rule_dispatch(before, after, m.spec_id(), applied, |s: Guild, u: Guild| m.update_rule(s, u)),
        GuildEvents::RoleCreate(m) => spec_rule_dispatch(before, after, m.spec_id(), applied, |s: Guild, u: Guild| m.update_rule(s, u)),
        GuildEvents::RoleUpdate(m) => spec_rule_dispatch(before, after, UpdateMessage::<Guild>::spec_id(&m), applied, |s: Guild, u: Guild| UpdateMessage::<Guild>::update_rule(&m, s, u)),
        GuildEvents::RoleDelete(m) => spec_rule_dispatch(before, after, m.spec_id(), applied, |s: Guild, u: Guild| m.update_rule(s, u)),
        _ => !applied && after =~= before,
    }
}

/// The common shape of a rule application: rewritten in one slot under
/// the rule if the identity is observed, untouched otherwise.
pub open spec fn spec_rule_dispatch(
    before: Seq<StoreEntry<Guild>>,
    after: Seq<StoreEntry<Guild>>,
    id: Option<crate::snowflake::Snowflake>,
    applied: bool,
    rule: spec_fn(Guild, Guild) -> bool,
) -> bool {
    match id {
        Some(id) => match spec_find_live(before, id) {
            Some(i) => applied && store_updated_at(before, after, i) && rule(
                before[i].value,
                after[i].value,
            ),
            None => !applied && after =~= before,
        },
        None => !applied && after =~= before,
    }
}

/// Routes one guild event into the store, then hands it back for
/// delivery to the subscriber. A create event for a guild not yet
/// observed inserts a fresh slot; every other rule only rewrites the
/// slot its identity names.
pub fn dispatch_guild_event(store: &mut ObservableStore<Guild>, ev: GuildEvents) -> (r: (
    GuildEvents,
    bool,
))
    requires
        old(store).wf(),
    ensures
        final(store).wf(),
        r.0 == ev,
        spec_guild_dispatch(old(store)@, final(store)@, ev, r.1),
{
    match ev {
        GuildEvents::Create(mut m) => {
            let id = m.id().unwrap();
            match store.find(id) {
                Some(h) => {
                    let slot = store.get_mut(h);
                    m.update(slot);
                    (GuildEvents::Create(m), true)
                },
                None => {
                    let value = match &m.d {
                        GuildCreateDataOption::Guild(g) => g.clone(),
                        GuildCreateDataOption::UnavailableGuild(u) => {
                            let mut placeholder = Guild::default();
                            placeholder.id = u.id;
                            placeholder.unavailable = Some(true);
                            placeholder
                        },
                    };
                    store.observe(value);
                    (GuildEvents::Create(m), true)
                },
            }
        },
        GuildEvents::Update(mut m) => {
            let applied = apply_update(store, &mut m);
            (GuildEvents::Update(m), applied)
        },
        GuildEvents::Delete(mut m) => {
            let applied = apply_update(store, &mut m);
            (GuildEvents::Delete(m), applied)
        },
        GuildEvents::RoleCreate(mut m) => {
            let applied = apply_update(store, &mut m);
            (GuildEvents::RoleCreate(m), applied)
        },
        GuildEvents::RoleUpdate(mut m) => {
            let applied = apply_update::<Guild, crate::events::GuildRoleUpdate>(store, &mut m);
            (GuildEvents::RoleUpdate(m), applied)
        },
        GuildEvents::RoleDelete(mut m) => {
            let applied = apply_update(store, &mut m);
            (GuildEvents::RoleDelete(m), applied)
        },
        other => (other, false),
    }
}

/// Routes one decoded dispatch event: guild events touch the store,
/// everything else passes straight through; the event always comes back
/// for delivery, whether or not any observable was updated.
pub fn dispatch_event(store: &mut ObservableStore<Guild>, event: DispatchPayload) -> (r: (
    DispatchPayload,
    bool,
))
    requires
        old(store).wf(),
    ensures
        final(store).wf(),
        r.0 == event,
        match event {
            DispatchPayload::Guild(ev) => spec_guild_dispatch(old(store)@, final(store)@, ev, r.1),
            _ => !r.1 && final(store)@ =~= old(store)@,
        },
{
    match event {
        DispatchPayload::Guild(ev) => {
            let (ev_back, applied) = dispatch_guild_event(store, ev);
            (DispatchPayload::Guild(ev_back), applied)
        },
        other => (other, false),
    }
}

} // verus!
