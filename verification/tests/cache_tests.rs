use prover_service::LruStore;

#[test]
fn get_returns_what_was_inserted() {
    let mut cache = LruStore::new(1000);
    cache.insert(7, vec![1u8, 2, 3]);
    assert_eq!(cache.get(7), Some(vec![1u8, 2, 3]));
    assert_eq!(cache.get(8), None);
    assert_eq!(cache.len(), 1);
}

#[test]
fn capacity_overflow_evicts_the_least_recently_used() {
    let mut cache = LruStore::new(2);
    cache.insert(1, vec![0xa1]);
    cache.insert(2, vec![0xa2]);
    cache.insert(3, vec![0xa3]);
    assert_eq!(cache.len(), 2);
    assert_eq!(cache.get(1), None);
    assert_eq!(cache.get(2), Some(vec![0xa2]));
    assert_eq!(cache.get(3), Some(vec![0xa3]));
}

#[test]
fn a_lookup_refreshes_the_entry() {
    let mut cache = LruStore::new(2);
    cache.insert(1, vec![0xa1]);
    cache.insert(2, vec![0xa2]);
    assert_eq!(cache.get(1), Some(vec![0xa1]));
    cache.insert(3, vec![0xa3]);
    assert_eq!(cache.get(2), None);
    assert_eq!(cache.get(1), Some(vec![0xa1]));
    assert_eq!(cache.get(3), Some(vec![0xa3]));
}

#[test]
fn reinserting_a_key_replaces_its_material_without_eviction() {
    let mut cache = LruStore::new(2);
    cache.insert(1, vec![0xa1]);
    cache.insert(2, vec![0xa2]);
    cache.insert(2, vec![0xb2]);
    assert_eq!(cache.len(), 2);
    assert_eq!(cache.get(1), Some(vec![0xa1]));
    assert_eq!(cache.get(2), Some(vec![0xb2]));
}

#[test]
fn reinserting_refreshes_recency() {
    let mut cache = LruStore::new(2);
    cache.insert(1, vec![0xa1]);
    cache.insert(2, vec![0xa2]);
    cache.insert(1, vec![0xb1]);
    cache.insert(3, vec![0xa3]);
    assert_eq!(cache.get(2), None);
    assert_eq!(cache.get(1), Some(vec![0xb1]));
}

#[test]
fn capacity_one_holds_only_the_newest() {
    let mut cache = LruStore::new(1);
    cache.insert(1, vec![1]);
    cache.insert(2, vec![2]);
    assert_eq!(cache.len(), 1);
    assert_eq!(cache.get(1), None);
    assert_eq!(cache.get(2), Some(vec![2]));
}
