use chorus::entities::{Guild, RoleObject};
use chorus::snowflake::Snowflake;
use chorus::store::{
    option_shared_handle_eq, option_vec_shared_handle_eq, shared_handle_eq, vec_shared_handle_eq,
    Composite, IntoShared, ObservableStore, Updateable,
};

fn guild(id: u64) -> Guild {
    let mut g = Guild::default();
    g.id = Snowflake(id);
    g
}

#[test]
fn observing_the_same_identity_twice_aliases_one_slot() {
    let mut store: ObservableStore<Guild> = ObservableStore::new();
    let mut g1 = guild(5);
    g1.name = Some("first".to_string());
    let mut g2 = guild(5);
    g2.name = Some("second".to_string());

    let h1 = store.observe(g1);
    let h2 = store.observe(g2);
    assert_eq!(h1, h2);
    assert!(shared_handle_eq(&h1, &h2));
    assert_eq!(store.len(), 1);
    // The store prefers the copy it already holds.
    assert_eq!(store.get(h2).name, Some("first".to_string()));
}

#[test]
fn updates_are_seen_through_every_handle() {
    let mut store: ObservableStore<Guild> = ObservableStore::new();
    let h1 = store.observe(guild(5));
    let h2 = store.observe(guild(5));

    // Mutate through the store, as the dispatcher does.
    store.get_mut(h1).name = Some("renamed".to_string());
    assert_eq!(store.get(h2).name, Some("renamed".to_string()));
    assert_eq!(store.get(h1).name, Some("renamed".to_string()));
}

#[test]
fn try_get_answers_only_for_own_handles() {
    let mut small: ObservableStore<Guild> = ObservableStore::new();
    let mut big: ObservableStore<Guild> = ObservableStore::new();
    let h0 = small.observe(guild(1));
    big.observe(guild(1));
    let h1 = big.observe(guild(2));

    assert_eq!(small.try_get(h0).unwrap().id, Snowflake(1));
    // A handle minted by a larger store points past this store's slots.
    assert!(small.try_get(h1).is_none());
}

#[test]
fn distinct_identities_get_distinct_slots() {
    let mut store: ObservableStore<Guild> = ObservableStore::new();
    let h1 = store.observe(guild(1));
    let h2 = store.observe(guild(2));
    assert_ne!(h1, h2);
    assert!(!shared_handle_eq(&h1, &h2));
    assert_eq!(store.len(), 2);
}

#[test]
fn stop_observing_keeps_old_handles_readable() {
    let mut store: ObservableStore<Guild> = ObservableStore::new();
    let h = store.observe(guild(5));
    store.get_mut(h).name = Some("kept".to_string());
    store.stop_observing(Snowflake(5));
    // The handle still reads the last value...
    assert_eq!(store.get(h).name, Some("kept".to_string()));
    // ...but the identity is no longer found, so it receives no updates,
    // and a fresh observation makes a fresh slot.
    assert_eq!(store.find(Snowflake(5)), None);
    let h2 = store.observe(guild(5));
    assert_ne!(h, h2);
    assert_eq!(store.len(), 2);
}

#[test]
fn into_shared_registers_the_entity() {
    let mut store: ObservableStore<RoleObject> = ObservableStore::new();
    let role = RoleObject {
        id: Snowflake(11),
        name: "everyone".to_string(),
        position: 0,
        permissions: None,
    };
    let h = role.into_shared(&mut store);
    assert_eq!(store.get(h).name, "everyone");
    assert_eq!(store.get(h).id(), Snowflake(11));
}

#[test]
fn composite_helpers_observe_each_component() {
    let mut store: ObservableStore<Guild> = ObservableStore::new();

    let none = <Guild as Composite<Guild>>::option_observe_fn(None, &mut store);
    assert!(none.is_none());
    assert_eq!(store.len(), 0);

    let one = <Guild as Composite<Guild>>::option_observe_fn(Some(guild(1)), &mut store);
    assert!(one.is_some());
    assert_eq!(store.len(), 1);

    let handles =
        <Guild as Composite<Guild>>::vec_observe_fn(vec![guild(1), guild(2), guild(2)], &mut store);
    assert_eq!(handles.len(), 3);
    assert_eq!(store.len(), 2);
    assert_eq!(handles[0], one.unwrap());
    assert_eq!(handles[1], handles[2]);

    let again = <Guild as Composite<Guild>>::option_vec_observe_fn(
        Some(vec![guild(2)]),
        &mut store,
    );
    assert!(again.is_some());
    assert_eq!(again.unwrap()[0], handles[1]);

    let whole = guild(3).watch_whole(&mut store);
    assert_eq!(whole.id, Snowflake(3));
    assert_eq!(store.len(), 3);
}

#[test]
fn watch_whole_hands_back_the_stores_copy() {
    let mut store: ObservableStore<Guild> = ObservableStore::new();
    let mut fresh = guild(4);
    fresh.name = Some("fresh".to_string());
    store.observe(fresh);

    // Watching a staler copy of the same identity yields the store's
    // live copy, not the argument.
    let mut stale = guild(4);
    stale.name = Some("stale".to_string());
    let back = stale.watch_whole(&mut store);
    assert_eq!(back.name, Some("fresh".to_string()));
    assert_eq!(store.len(), 1);
}

#[test]
fn handle_list_aliasing_checks() {
    let mut store: ObservableStore<Guild> = ObservableStore::new();
    let h1 = store.observe(guild(1));
    let h2 = store.observe(guild(2));

    assert!(vec_shared_handle_eq(&vec![h1, h2], &vec![h1, h2]));
    assert!(!vec_shared_handle_eq(&vec![h1, h2], &vec![h2, h1]));
    // As far as both lists reach: a shorter prefix of the same handles
    // still counts as aliasing.
    assert!(vec_shared_handle_eq(&vec![h1], &vec![h1, h2]));

    assert!(option_shared_handle_eq(&None, &None));
    assert!(option_shared_handle_eq(&Some(h1), &Some(h1)));
    assert!(!option_shared_handle_eq(&Some(h1), &Some(h2)));
    assert!(!option_shared_handle_eq(&Some(h1), &None));

    assert!(option_vec_shared_handle_eq(&None, &None));
    assert!(option_vec_shared_handle_eq(&Some(vec![h1]), &Some(vec![h1])));
    assert!(!option_vec_shared_handle_eq(&Some(vec![h1]), &Some(vec![h2])));
    assert!(!option_vec_shared_handle_eq(&Some(vec![h1]), &None));
}
