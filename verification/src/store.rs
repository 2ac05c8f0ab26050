//! The observable-entity registry.
//!
//! Callers do not hold entities directly: they hold [`Observable`] handles
//! into a session's [`ObservableStore`]. The store keeps one slot per
//! distinct entity identity, so two observations of the same identity
//! resolve to the same handle and every holder sees each dispatched update.
//! Dropping an observation clears the slot's live flag: handles already
//! held stay readable, but the slot no longer receives updates.

use vstd::prelude::*;

use crate::entities::{Guild, RoleObject};
use crate::snowflake::Snowflake;

verus! {

/// An entity that the gateway can keep up to date: it must carry its own
/// identity.
pub trait Updateable: Sized {
    /// The entity's identity.
    spec fn spec_id(&self) -> Snowflake;

    /// The entity's identity.
    fn id(&self) -> (r: Snowflake)
        ensures
            r == self.spec_id(),
    ;
}

impl Updateable for Guild {
    open spec fn spec_id(&self) -> Snowflake {
        self.id
    }

    fn id(&self) -> Snowflake {
        self.id
    }
}

impl Updateable for RoleObject {
    open spec fn spec_id(&self) -> Snowflake {
        self.id
    }

    fn id(&self) -> Snowflake {
        self.id
    }
}

/// A shared handle onto one slot of an [`ObservableStore`]. Copying the
/// handle aliases the slot; it never copies the entity.
#[derive(Debug, Clone, Copy, PartialEq, Eq, Structural)]
pub struct Observable {
    index: usize,
}

impl Observable {
    /// Which slot the handle points at.
    pub closed spec fn idx(self) -> int {
        self.index as int
    }
}

/// One slot of the registry: the identity it is keyed by, whether it still
/// receives updates, and the entity itself.
pub struct StoreEntry<T> {
    pub id: Snowflake,
    pub live: bool,
    pub value: T,
}

/// The first live slot keyed by `id`, if any.
pub open spec fn spec_find_live<T>(es: Seq<StoreEntry<T>>, id: Snowflake) -> Option<int>
    decreases es.len(),
{
    if es.len() == 0 {
        None
    } else if es[0].live && es[0].id == id {
        Some(0)
    } else {
        match spec_find_live(es.drop_first(), id) {
            Some(i) => Some(i + 1),
            None => None,
        }
    }
}

/// What [`spec_find_live`] finds is the first live match; when it finds
/// nothing, there is none.
pub proof fn lemma_find_live_characterization<T>(es: Seq<StoreEntry<T>>, id: Snowflake)
    ensures
        match spec_find_live(es, id) {
            Some(i) => 0 <= i < es.len() && es[i].live && es[i].id == id && (forall|j: int|
                0 <= j < i ==> !(es[j].live && es[j].id == id)),
            None => forall|j: int| 0 <= j < es.len() ==> !(es[j].live && es[j].id == id),
        },
    decreases es.len(),
{
    if es.len() > 0 {
        if !(es[0].live && es[0].id == id) {
            lemma_find_live_characterization(es.drop_first(), id);
            match spec_find_live(es.drop_first(), id) {
                Some(i) => {
                    assert forall|j: int| 0 <= j < i + 1 implies !(es[j].live && es[j].id == id) by {
                        if j > 0 {
                            assert(es[j] == es.drop_first()[j - 1]);
                        }
                    }
                },
                None => {
                    assert forall|j: int| 0 <= j < es.len() implies !(es[j].live && es[j].id
                        == id) by {
                        if j > 0 {
                            assert(es[j] == es.drop_first()[j - 1]);
                        }
                    }
                },
            }
        }
    }
}

/// No two live slots share an identity.
pub open spec fn entries_wf<T>(es: Seq<StoreEntry<T>>) -> bool {
    forall|i: int, j: int|
        0 <= i < es.len() && 0 <= j < es.len() && i != j && es[i].live && es[j].live ==> es[i].id
            != es[j].id
}

/// What observing `v` does: hand back the slot already keyed by `v`'s
/// identity (the live copy is preferred over the argument), or append a
/// fresh live slot holding `v`.
pub open spec fn spec_observe<T: Updateable>(es: Seq<StoreEntry<T>>, v: T) -> (Seq<StoreEntry<T>>, int) {
    match spec_find_live(es, v.spec_id()) {
        Some(i) => (es, i),
        None => (es.push(StoreEntry { id: v.spec_id(), live: true, value: v }), es.len() as int),
    }
}

/// What a dispatched update does to slot `i`: write the entity, touch
/// nothing else.
pub open spec fn spec_write<T>(es: Seq<StoreEntry<T>>, i: int, w: T) -> Seq<StoreEntry<T>> {
    es.update(i, StoreEntry { id: es[i].id, live: es[i].live, value: w })
}

/// What observing a whole sequence of entities, in order, does to the
/// registry, and which handle each entity resolves to.
pub open spec fn spec_observe_all<T: Updateable>(es: Seq<StoreEntry<T>>, vs: Seq<T>) -> (
    Seq<StoreEntry<T>>,
    Seq<int>,
)
    decreases vs.len(),
{
    if vs.len() == 0 {
        (es, Seq::<int>::empty())
    } else {
        let first = spec_observe(es, vs[0]);
        let rest = spec_observe_all(first.0, vs.drop_first());
        (rest.0, seq![first.1] + rest.1)
    }
}

/// Observing one more entity after a batch is the batch followed by the
/// one observation.
pub proof fn lemma_observe_all_snoc<T: Updateable>(es: Seq<StoreEntry<T>>, vs: Seq<T>, v: T)
    ensures
        spec_observe_all(es, vs.push(v)).0 =~= spec_observe(spec_observe_all(es, vs).0, v).0,
        spec_observe_all(es, vs.push(v)).1 =~= spec_observe_all(es, vs).1.push(
            spec_observe(spec_observe_all(es, vs).0, v).1,
        ),
    decreases vs.len(),
{
    if vs.len() == 0 {
        assert(vs.push(v)[0] == v);
        assert(vs.push(v).drop_first() =~= Seq::<T>::empty());
        assert(spec_observe_all(spec_observe(es, v).0, Seq::<T>::empty()).0 =~= spec_observe(
            es,
            v,
        ).0);
        assert(spec_observe_all(spec_observe(es, v).0, Seq::<T>::empty()).1 =~= Seq::<
            int,
        >::empty());
        assert(spec_observe_all(es, vs).0 =~= es);
        assert(spec_observe_all(es, vs).1 =~= Seq::<int>::empty());
    } else {
        assert(vs.push(v)[0] == vs[0]);
        assert(vs.push(v).drop_first() =~= vs.drop_first().push(v));
        lemma_observe_all_snoc(spec_observe(es, vs[0]).0, vs.drop_first(), v);
    }
}

/// A batch observation hands back one handle per entity.
pub proof fn lemma_observe_all_len<T: Updateable>(es: Seq<StoreEntry<T>>, vs: Seq<T>)
    ensures
        spec_observe_all(es, vs).1.len() == vs.len(),
    decreases vs.len(),
{
    if vs.len() > 0 {
        lemma_observe_all_len(spec_observe(es, vs[0]).0, vs.drop_first());
    }
}

/// The registry of observed entities for one session.
pub struct ObservableStore<T> {
    entries: Vec<StoreEntry<T>>,
}

impl<T> View for ObservableStore<T> {
    type V = Seq<StoreEntry<T>>;

    closed spec fn view(&self) -> Seq<StoreEntry<T>> {
        self.entries@
    }
}

impl<T: Updateable> ObservableStore<T> {
    /// No two live slots share an identity.
    pub open spec fn wf(&self) -> bool {
        entries_wf(self@)
    }

    /// A handle this store will answer for.
    pub open spec fn valid_handle(&self, h: Observable) -> bool {
        0 <= h.idx() < self@.len()
    }

    /// An empty registry.
    pub fn new() -> (s: Self)
        ensures
            s@ =~= Seq::<StoreEntry<T>>::empty(),
            s.wf(),
    {
        ObservableStore { entries: Vec::new() }
    }

    /// How many slots the registry holds, live or not.
    pub fn len(&self) -> (n: usize)
        ensures
            n == self@.len(),
    {
        self.entries.len()
    }

    /// The first live slot keyed by `id`, as a handle.
    pub fn find(&self, id: Snowflake) -> (r: Option<Observable>)
        ensures
            match r {
                Some(h) => spec_find_live(self@, id) == Some(h.idx()) && self.valid_handle(h)
                    && self@[h.idx()].live && self@[h.idx()].id == id,
                None => spec_find_live(self@, id) is None,
            },
    {
        proof {
            lemma_find_live_characterization(self@, id);
        }
        let n = self.entries.len();
        let mut k: usize = 0;
        while k < n
            invariant
                k <= n,
                n == self@.len(),
                forall|j: int| 0 <= j < k ==> !(self@[j].live && self@[j].id == id),
            decreases n - k,
        {
            if self.entries[k].live && self.entries[k].id == id {
                proof {
                    lemma_find_live_characterization(self@, id);
                }
                return Some(Observable { index: k });
            }
            k += 1;
        }
        proof {
            lemma_find_live_characterization(self@, id);
        }
        None
    }

    /// Observes an entity: the handle for its identity, backed by the slot
    /// already keyed by it if one is live (whose copy is kept, as it may be
    /// fresher than the argument), or by a fresh slot holding `value`.
    pub fn observe(&mut self, value: T) -> (h: Observable)
        requires
            old(self).wf(),
        ensures
            final(self).wf(),
            final(self)@ =~= spec_observe(old(self)@, value).0,
            h.idx() == spec_observe(old(self)@, value).1,
            final(self).valid_handle(h),
            final(self)@[h.idx()].live,
            final(self)@[h.idx()].id == value.spec_id(),
    {
        proof {
            lemma_find_live_characterization(self@, value.spec_id());
        }
        let id = value.id();
        match self.find(id) {
            Some(h) => h,
            None => {
                let index = self.entries.len();
                self.entries.push(StoreEntry { id, live: true, value });
                Observable { index }
            },
        }
    }

    /// Reads the entity a handle points at.
    pub fn get(&self, h: Observable) -> (r: &T)
        requires
            self.valid_handle(h),
        ensures
            *r == self@[h.idx()].value,
    {
        &self.entries[h.index].value
    }

    /// Reads the entity a handle points at, if the handle belongs to
    /// this store at all.
    pub fn try_get(&self, h: Observable) -> (r: Option<&T>)
        ensures
            match r {
                Some(v) => 0 <= h.idx() < self@.len() && *v == self@[h.idx()].value,
                None => !(0 <= h.idx() < self@.len()),
            },
    {
        if h.index < self.entries.len() {
            Some(&self.entries[h.index].value)
        } else {
            None
        }
    }

    /// Borrows the entity a handle points at for a single in-place update,
    /// the way the dispatcher applies an event's update rule. The slot's
    /// identity and live flag stay as they are.
    pub fn get_mut(&mut self, h: Observable) -> (r: &mut T)
        requires
            old(self).wf(),
            old(self).valid_handle(h),
        ensures
            *r == old(self)@[h.idx()].value,
            final(self)@ =~= spec_write(old(self)@, h.idx(), *final(r)),
            final(self).wf(),
    {
        &mut self.entries[h.index].value
    }

    /// Drops the store's interest in `id`: every live slot keyed by it goes
    /// quiet. Handles already held keep reading the last value, but the
    /// slot no longer receives updates.
    pub fn stop_observing(&mut self, id: Snowflake)
        requires
            old(self).wf(),
        ensures
            final(self).wf(),
            final(self)@.len() == old(self)@.len(),
            forall|i: int|
                0 <= i < old(self)@.len() ==> final(self)@[i] == (if old(self)@[i].live && old(
                    self,
                )@[i].id == id {
                    StoreEntry {
                        id: old(self)@[i].id,
                        live: false,
                        value: old(self)@[i].value,
                    }
                } else {
                    old(self)@[i]
                }),
    {
        let n = self.entries.len();
        let mut k: usize = 0;
        while k < n
            invariant
                k <= n,
                n == self@.len(),
                self@.len() == old(self)@.len(),
                forall|i: int|
                    k <= i < old(self)@.len() ==> self@[i] == old(self)@[i],
                forall|i: int|
                    0 <= i < k ==> self@[i] == (if old(self)@[i].live && old(self)@[i].id == id {
                        StoreEntry {
                            id: old(self)@[i].id,
                            live: false,
                            value: old(self)@[i].value,
                        }
                    } else {
                        old(self)@[i]
                    }),
            decreases n - k,
        {
            if self.entries[k].live && self.entries[k].id == id {
                self.entries[k].live = false;
            }
            k += 1;
        }
    }
}

/// An entity assembled from parts that may themselves be observed: watching
/// the whole re-registers it (and, per entity, its parts) with the store.
pub trait Composite<T: Updateable>: Sized {
    /// Re-registers the entity with the store and hands back the canonical
    /// copy the store keeps for its identity.
    fn watch_whole(self, store: &mut ObservableStore<T>) -> (r: Self)
        requires
            old(store).wf(),
        ensures
            final(store).wf(),
    ;

    /// Observes the entity behind an optional component, if there is one.
    fn option_observe_fn(value: Option<T>, store: &mut ObservableStore<T>) -> (r: Option<
        Observable,
    >)
        requires
            old(store).wf(),
        ensures
            final(store).wf(),
            match value {
                Option::None => r is None && final(store)@ =~= old(store)@,
                Option::Some(v) => match r {
                    Option::Some(h) => final(store)@ =~= spec_observe(old(store)@, v).0 && h.idx()
                        == spec_observe(old(store)@, v).1,
                    Option::None => false,
                },
            },
    {
        match value {
            Option::Some(v) => Option::Some(store.observe(v)),
            Option::None => Option::None,
        }
    }

    /// Observes every entity of a component list, in order.
    fn vec_observe_fn(value: Vec<T>, store: &mut ObservableStore<T>) -> (r: Vec<Observable>)
        requires
            old(store).wf(),
        ensures
            final(store).wf(),
            final(store)@ =~= spec_observe_all(old(store)@, value@).0,
            r@.len() == value@.len(),
            forall|i: int|
                0 <= i < r@.len() ==> r@[i].idx() == spec_observe_all(old(store)@, value@).1[i],
    {
        let ghost orig: Seq<T> = value@;
        let ghost mut done: Seq<T> = Seq::<T>::empty();
        let mut rest = value;
        let mut handles: Vec<Observable> = Vec::new();
        while rest.len() > 0
            invariant
                store.wf(),
                orig =~= done + rest@,
                store@ =~= spec_observe_all(old(store)@, done).0,
                spec_observe_all(old(store)@, done).1.len() == done.len(),
                handles@.len() == done.len(),
                forall|i: int|
                    0 <= i < handles@.len() ==> handles@[i].idx() == spec_observe_all(
                        old(store)@,
                        done,
                    ).1[i],
            decreases rest.len(),
        {
            let ghost es_before = store@;
            let ghost done_before = done;
            let v = rest.remove(0);
            proof {
                lemma_observe_all_snoc(old(store)@, done_before, v);
            }
            let h = store.observe(v);
            handles.push(h);
            proof {
                done = done_before.push(v);
                lemma_observe_all_len(old(store)@, done);
                assert(es_before == spec_observe_all(old(store)@, done_before).0);
                assert(h.idx() == spec_observe(es_before, v).1);
                assert(orig =~= done + rest@);
            }
        }
        proof {
            assert(done =~= orig);
            assert(done == orig);
        }
        handles
    }

    /// Observes every entity behind an optional component list, if there is
    /// one.
    fn option_vec_observe_fn(value: Option<Vec<T>>, store: &mut ObservableStore<T>) -> (r: Option<
        Vec<Observable>,
    >)
        requires
            old(store).wf(),
        ensures
            final(store).wf(),
            match value {
                Option::None => r is None && final(store)@ =~= old(store)@,
                Option::Some(vs) => match r {
                    Option::Some(hs) => final(store)@ =~= spec_observe_all(old(store)@, vs@).0
                        && hs@.len() == vs@.len() && (forall|i: int|
                        0 <= i < hs@.len() ==> hs@[i].idx() == spec_observe_all(
                            old(store)@,
                            vs@,
                        ).1[i]),
                    Option::None => false,
                },
            },
    {
        match value {
            Option::Some(vs) => Option::Some(Self::vec_observe_fn(vs, store)),
            Option::None => Option::None,
        }
    }

    /// Observes the entity behind a single component.
    fn value_observe_fn(value: T, store: &mut ObservableStore<T>) -> (r: Observable)
        requires
            old(store).wf(),
        ensures
            final(store).wf(),
            final(store)@ =~= spec_observe(old(store)@, value).0,
            r.idx() == spec_observe(old(store)@, value).1,
    {
        store.observe(value)
    }
}

impl Composite<Guild> for Guild {
    /// A guild is re-registered as a whole; the store's copy, possibly
    /// fresher than the argument, is what the caller gets back.
    fn watch_whole(self, store: &mut ObservableStore<Guild>) -> (r: Self)
        ensures
            final(store)@ =~= spec_observe(old(store)@, self).0,
            r.like(final(store)@[spec_observe(old(store)@, self).1].value),
    {
        let h = store.observe(self);
        store.get(h).clone()
    }
}

impl Composite<RoleObject> for RoleObject {
    /// A role has no shared parts; watching it re-registers the role
    /// itself, and hands back the store's copy for its identity.
    fn watch_whole(self, store: &mut ObservableStore<RoleObject>) -> (r: Self)
        ensures
            final(store)@ =~= spec_observe(old(store)@, self).0,
            r == final(store)@[spec_observe(old(store)@, self).1].value,
    {
        let h = store.observe(self);
        store.get(h).clone()
    }
}

/// Turning an entity into a shared handle: the ergonomic route into the
/// registry.
pub trait IntoShared: Updateable {
    /// Registers the entity and hands back the shared handle for its
    /// identity. An identity the store already observes resolves to the
    /// existing slot, whose copy is kept — never to a second,
    /// free-standing cell that could silently diverge.
    fn into_shared(self, store: &mut ObservableStore<Self>) -> (h: Observable)
        requires
            old(store).wf(),
        ensures
            final(store).wf(),
            final(store)@ =~= spec_observe(old(store)@, self).0,
            h.idx() == spec_observe(old(store)@, self).1,
    ;
}

impl<T: Updateable> IntoShared for T {
    fn into_shared(self, store: &mut ObservableStore<T>) -> (h: Observable) {
        store.observe(self)
    }
}

/// Whether two handles alias the same slot (the analogue of comparing two
/// shared pointers for identity).
pub fn shared_handle_eq(a: &Observable, b: &Observable) -> (r: bool)
    ensures
        r == (a == b),
{
    a.index == b.index
}

/// Whether two handle lists alias the same slots, position by position, as
/// far as both lists reach.
pub fn vec_shared_handle_eq(a: &Vec<Observable>, b: &Vec<Observable>) -> (r: bool)
    ensures
        r == (forall|i: int| 0 <= i < a@.len() && i < b@.len() ==> a@[i] == b@[i]),
{
    let n = if a.len() < b.len() {
        a.len()
    } else {
        b.len()
    };
    let mut k: usize = 0;
    while k < n
        invariant
            k <= n,
            n <= a@.len(),
            n <= b@.len(),
            n == if a@.len() < b@.len() {
                a@.len()
            } else {
                b@.len()
            },
            forall|i: int| 0 <= i < k ==> a@[i] == b@[i],
        decreases n - k,
    {
        if !shared_handle_eq(&a[k], &b[k]) {
            return false;
        }
        k += 1;
    }
    true
}

/// Whether two optional handles alias the same slot; two absent handles
/// count as aliases.
pub fn option_shared_handle_eq(a: &Option<Observable>, b: &Option<Observable>) -> (r: bool)
    ensures
        r == match (a, b) {
            (Option::Some(x), Option::Some(y)) => x == y,
            (Option::None, Option::None) => true,
            _ => false,
        },
{
    match (a, b) {
        (Option::Some(x), Option::Some(y)) => shared_handle_eq(x, y),
        (Option::None, Option::None) => true,
        _ => false,
    }
}

/// Whether two optional handle lists alias the same slots, as far as both
/// lists reach; two absent lists count as aliases.
pub fn option_vec_shared_handle_eq(a: &Option<Vec<Observable>>, b: &Option<Vec<Observable>>) -> (r:
    bool)
    ensures
        r == match (a, b) {
            (Option::Some(x), Option::Some(y)) => forall|i: int|
                0 <= i < x@.len() && i < y@.len() ==> x@[i] == y@[i],
            (Option::None, Option::None) => true,
            _ => false,
        },
{
    match (a, b) {
        (Option::Some(x), Option::Some(y)) => vec_shared_handle_eq(x, y),
        (Option::None, Option::None) => true,
        _ => false,
    }
}

/// Observing the same identity twice yields the very same handle, and an
/// update written through the store is read back through either handle:
/// the two observations alias one slot, they never copy the entity.
pub proof fn lemma_observe_aliases<T: Updateable>(es: Seq<StoreEntry<T>>, v1: T, v2: T, w: T)
    requires
        entries_wf(es),
        v1.spec_id() == v2.spec_id(),
    ensures
        ({
            let first = spec_observe(es, v1);
            let second = spec_observe(first.0, v2);
            let written = spec_write(second.0, first.1, w);
            second.1 == first.1 && written[first.1].value == w && written[second.1].value == w
        }),
{
    let id = v1.spec_id();
    let first = spec_observe(es, v1);
    lemma_find_live_characterization(es, id);
    lemma_find_live_characterization(first.0, id);
    match spec_find_live(es, id) {
        Some(i) => {
            assert(first.0 =~= es);
        },
        None => {
            let es1 = es.push(StoreEntry { id, live: true, value: v1 });
            assert(first.0 =~= es1);
            match spec_find_live(es1, id) {
                Some(j) => {
                    assert(j == es.len());
                },
                None => {
                    assert(es1[es.len() as int].live && es1[es.len() as int].id == id);
                },
            }
        },
    }
}

} // verus!
