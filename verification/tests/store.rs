use asset_store::{AssetEvent, Assets, Events, Handle, DEFAULT_HANDLE_ID};

fn is_created_for<T>(event: &AssetEvent<T>, handle: Handle<T>) -> bool {
    matches!(event, AssetEvent::Created { handle: h } if *h == handle)
}

fn is_modified_for<T>(event: &AssetEvent<T>, handle: Handle<T>) -> bool {
    matches!(event, AssetEvent::Modified { handle: h } if *h == handle)
}

fn drain_store<T>(store: &mut Assets<T>) -> Vec<AssetEvent<T>> {
    let mut stream: Events<AssetEvent<T>> = Events::new();
    Assets::asset_event_system(&mut stream, store);
    stream.drain()
}

#[test]
fn add_then_set_then_remove_event_sequence() {
    let mut store: Assets<String> = Assets::default();

    let h1 = store.add(String::from("foo"));
    let drained = drain_store(&mut store);
    assert_eq!(drained.len(), 1);
    assert!(is_created_for(&drained[0], h1));

    store.set(h1, String::from("bar"));
    let drained = drain_store(&mut store);
    assert_eq!(drained.len(), 1);
    assert!(is_modified_for(&drained[0], h1));

    let removed = store.remove(&h1);
    assert_eq!(removed, Some(String::from("bar")));
    let drained = drain_store(&mut store);
    assert!(drained.is_empty());
}

#[test]
fn created_count_matches_distinct_first_inserts() {
    let mut store: Assets<u32> = Assets::default();
    let a = Handle::from_id(1);
    let b = Handle::from_id(2);

    store.set(a, 10);
    store.set(b, 20);
    store.set(a, 30);
    let fresh = store.add(40);
    store.set(fresh, 50);

    let drained = drain_store(&mut store);
    let created = drained
        .iter()
        .filter(|e| matches!(e, AssetEvent::Created { .. }))
        .count();
    let modified = drained
        .iter()
        .filter(|e| matches!(e, AssetEvent::Modified { .. }))
        .count();
    assert_eq!(created, 3);
    assert_eq!(modified, 2);
}

#[test]
fn get_or_insert_with_runs_producer_only_when_absent() {
    let mut store: Assets<String> = Assets::default();
    let h = Handle::from_id(9);

    let value = store.get_or_insert_with(h, || String::from("made"));
    assert_eq!(value, "made");

    // The handle is present now, so the producer must not run.
    let value = store.get_or_insert_with(h, || unreachable!());
    assert_eq!(value, "made");

    let drained = drain_store(&mut store);
    assert_eq!(drained.len(), 1);
    assert!(is_created_for(&drained[0], h));
}

#[test]
fn set_path_last_writer_wins() {
    let mut store: Assets<u8> = Assets::default();
    let h1 = Handle::from_id(1);
    let h2 = Handle::from_id(2);

    store.set_path(h1, "models/tree");
    assert_eq!(store.get_with_path("models/tree"), Some(h1));

    store.set_path(h2, "models/tree");
    let resolved = store.get_with_path("models/tree");
    assert_eq!(resolved, Some(h2));
    assert_ne!(resolved, Some(h1));

    assert_eq!(store.get_with_path("models/rock"), None);
}

#[test]
fn set_path_emits_no_change_record() {
    let mut store: Assets<u8> = Assets::default();
    store.set_path(Handle::from_id(5), "silent");
    let drained = drain_store(&mut store);
    assert!(drained.is_empty());
}

#[test]
fn two_drains_without_mutation_yield_then_nothing() {
    let mut store: Assets<u8> = Assets::default();
    let mut stream: Events<AssetEvent<u8>> = Events::new();

    store.set(Handle::from_id(3), 7);
    Assets::asset_event_system(&mut stream, &mut store);
    let first = stream.drain();
    assert_eq!(first.len(), 1);

    Assets::asset_event_system(&mut stream, &mut store);
    let second = stream.drain();
    assert!(second.is_empty());
}

#[test]
fn add_default_upserts_the_default_slot() {
    let mut store: Assets<&'static str> = Assets::default();

    let h = store.add_default("fallback");
    assert_eq!(h, Handle::default());
    assert_eq!(h.id(), DEFAULT_HANDLE_ID);
    assert_eq!(store.get(&h), Some(&"fallback"));

    let again = store.add_default("better");
    assert_eq!(again, h);
    assert_eq!(store.get(&h), Some(&"better"));

    let drained = drain_store(&mut store);
    assert_eq!(drained.len(), 2);
    assert!(is_created_for(&drained[0], h));
    assert!(is_modified_for(&drained[1], h));
}

#[test]
fn get_mut_changes_value_without_record() {
    let mut store: Assets<String> = Assets::default();
    let h = Handle::from_id(4);
    store.set(h, String::from("first"));
    let _ = drain_store(&mut store);

    if let Some(value) = store.get_mut(&h) {
        value.push_str(" second");
    } else {
        panic!("entry should be present");
    }
    assert_eq!(store.get(&h), Some(&String::from("first second")));
    assert!(drain_store(&mut store).is_empty());

    assert!(store.get_mut(&Handle::from_id(999)).is_none());
}

#[test]
fn get_id_variants_match_handle_lookups() {
    let mut store: Assets<u64> = Assets::default();
    let h = store.add(11);

    assert_eq!(store.get_id(h.id()), Some(&11));
    assert_eq!(store.get_id(h.id().wrapping_add(1)), None);

    if let Some(value) = store.get_id_mut(h.id()) {
        *value = 12;
    }
    assert_eq!(store.get(&h), Some(&12));
}

#[test]
fn iter_yields_every_entry_once() {
    let mut store: Assets<u32> = Assets::default();
    let a = Handle::from_id(1);
    let b = Handle::from_id(2);
    let c = Handle::from_id(3);
    store.set(a, 10);
    store.set(b, 20);
    store.set(c, 30);
    store.remove(&b);

    let mut pairs: Vec<(u128, u32)> = store.iter().iter().map(|(h, v)| (h.id(), **v)).collect();
    pairs.sort();
    assert_eq!(pairs, vec![(1, 10), (3, 30)]);
}

#[test]
fn fresh_handles_are_distinct() {
    let mut store: Assets<u8> = Assets::default();
    let h1 = store.add(1);
    let h2 = store.add(2);
    assert_ne!(h1, h2);
    assert_ne!(h1, Handle::default());
    assert_ne!(h2, Handle::default());
    assert_eq!(store.get(&h1), Some(&1));
    assert_eq!(store.get(&h2), Some(&2));
}

#[test]
fn handles_compare_by_identifier() {
    let a: Handle<String> = Handle::from_id(42);
    let b: Handle<String> = Handle::from_id(42);
    let c: Handle<String> = Handle::from_id(43);
    assert_eq!(a, b);
    assert_ne!(a, c);
    let copied = a;
    assert_eq!(a, copied);
    assert_eq!(a.clone(), b);
    assert_eq!(Handle::<String>::default().id(), DEFAULT_HANDLE_ID);

    let mut seen = std::collections::HashSet::new();
    seen.insert(a);
    seen.insert(b);
    seen.insert(c);
    assert_eq!(seen.len(), 2);
}

#[test]
fn events_double_buffer_keeps_one_cycle() {
    let mut events: Events<u32> = Events::new();
    events.send(1);
    events.extend(vec![2, 3]);
    assert!(events.read().is_empty());

    events.update();
    assert_eq!(events.read(), &vec![1, 2, 3]);

    events.send(4);
    assert_eq!(events.read(), &vec![1, 2, 3]);

    events.update();
    assert_eq!(events.read(), &vec![4]);

    events.send(5);
    assert_eq!(events.drain(), vec![4, 5]);
    assert!(events.read().is_empty());
}
