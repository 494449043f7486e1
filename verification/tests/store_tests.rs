use kvstore::store::Store;

#[test]
fn seeded_entries_present() {
    let store = Store::new();
    assert_eq!(store.get(&"key1".to_string()), Some("v1".to_string()));
    assert_eq!(store.get(&"key2".to_string()), Some("v2".to_string()));
    assert_eq!(store.get(&"key3".to_string()), Some("v3".to_string()));
}

#[test]
fn get_is_idempotent() {
    let store = Store::new();
    let key = "key1".to_string();
    assert_eq!(store.get(&key), Some("v1".to_string()));
    assert_eq!(store.get(&key), Some("v1".to_string()));
    assert_eq!(store.get(&key), Some("v1".to_string()));
}

#[test]
fn set_then_get_round_trip() {
    let mut store = Store::new();
    store.set("fruit".to_string(), "pear".to_string());
    assert_eq!(store.get(&"fruit".to_string()), Some("pear".to_string()));
    assert_eq!(store.get(&"fruit".to_string()), Some("pear".to_string()));
}

#[test]
fn overwrite_keeps_last_write_only() {
    let mut store = Store::new();
    store.set("k".to_string(), "first".to_string());
    store.set("k".to_string(), "second".to_string());
    assert_eq!(store.get(&"k".to_string()), Some("second".to_string()));
    let snap = store.snapshot();
    let hits: Vec<_> = snap.iter().filter(|(k, _)| k == "k").collect();
    assert_eq!(hits.len(), 1);
    assert_eq!(hits[0].1, "second");
}

#[test]
fn missing_key_is_none_and_store_unchanged() {
    let store = Store::new();
    assert_eq!(store.get(&"absent".to_string()), None);
    assert_eq!(store.get(&"absent".to_string()), None);
    let snap = store.snapshot();
    assert_eq!(snap.len(), 3);
    assert!(snap.iter().all(|(k, _)| k != "absent"));
}

#[test]
fn many_distinct_sets_all_persist() {
    let mut store = Store::new();
    for i in 0..32 {
        store.set(format!("user{}", i), format!("value{}", i));
    }
    for i in 0..32 {
        assert_eq!(store.get(&format!("user{}", i)), Some(format!("value{}", i)));
    }
}

#[test]
fn empty_key_and_value_are_legal() {
    let mut store = Store::new();
    store.set(String::new(), String::new());
    assert_eq!(store.get(&String::new()), Some(String::new()));
    store.set(String::new(), "x".to_string());
    assert_eq!(store.get(&String::new()), Some("x".to_string()));
}

#[test]
fn snapshot_lists_exactly_the_contents() {
    let mut store = Store::new();
    store.set("a".to_string(), "b".to_string());
    let mut snap = store.snapshot();
    snap.sort();
    assert_eq!(
        snap,
        vec![
            ("a".to_string(), "b".to_string()),
            ("key1".to_string(), "v1".to_string()),
            ("key2".to_string(), "v2".to_string()),
            ("key3".to_string(), "v3".to_string()),
        ]
    );
}
