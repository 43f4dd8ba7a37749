use jinn_domain::entry::ChatEntryId;
use jinn_domain::token_cache::EntryTokenCache;

#[test]
fn get_returns_inserted_count() {
    let mut cache = EntryTokenCache::new();
    cache.insert(ChatEntryId(1), 42);
    assert_eq!(cache.get(&ChatEntryId(1)), Some(42));
}

#[test]
fn get_returns_none_for_missing() {
    let cache = EntryTokenCache::new();
    assert_eq!(cache.get(&ChatEntryId(1)), None);
}

#[test]
fn contains_returns_true_for_inserted() {
    let mut cache = EntryTokenCache::new();
    cache.insert(ChatEntryId(1), 42);
    assert!(cache.contains(&ChatEntryId(1)));
    assert!(!cache.contains(&ChatEntryId(2)));
}

#[test]
fn bulk_insert_adds_multiple_entries() {
    let mut cache = EntryTokenCache::new();
    cache.bulk_insert(vec![(ChatEntryId(1), 10), (ChatEntryId(2), 20)]);
    assert_eq!(cache.get(&ChatEntryId(1)), Some(10));
    assert_eq!(cache.get(&ChatEntryId(2)), Some(20));
}

#[test]
fn clear_removes_all_entries() {
    let mut cache = EntryTokenCache::new();
    cache.insert(ChatEntryId(1), 42);
    cache.clear();
    assert!(!cache.contains(&ChatEntryId(1)));
}

#[test]
fn insert_overwrites_existing() {
    let mut cache = EntryTokenCache::new();
    cache.insert(ChatEntryId(1), 42);
    cache.insert(ChatEntryId(1), 99);
    assert_eq!(cache.get(&ChatEntryId(1)), Some(99));
}

#[test]
fn bulk_insert_matches_inserts_one_by_one() {
    let pairs = vec![(ChatEntryId(1), 10), (ChatEntryId(2), 20), (ChatEntryId(1), 30)];
    let mut bulk = EntryTokenCache::new();
    bulk.insert(ChatEntryId(3), 7);
    let mut single = bulk.clone();
    bulk.bulk_insert(pairs.clone());
    for (id, n) in pairs {
        single.insert(id, n);
    }
    for k in 0..5 {
        assert_eq!(bulk.get(&ChatEntryId(k)), single.get(&ChatEntryId(k)));
    }
    assert_eq!(bulk.get(&ChatEntryId(1)), Some(30));
    assert_eq!(bulk.get(&ChatEntryId(3)), Some(7));
}
