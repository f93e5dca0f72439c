use resizer::cache::LruCache;

#[test]
fn empty_cache_misses() {
    let mut cache = LruCache::new(4);
    assert_eq!(cache.len(), 0);
    assert_eq!(cache.capacity(), 4);
    assert!(cache.get(&"absent".to_string()).is_none());
    assert_eq!(cache.len(), 0);
}

#[test]
fn put_then_get_returns_bytes() {
    let mut cache = LruCache::new(4);
    cache.put("k".to_string(), vec![1, 2, 3]);
    assert_eq!(cache.len(), 1);
    assert_eq!(cache.get(&"k".to_string()), Some(vec![1, 2, 3]));
    assert_eq!(cache.len(), 1);
}

#[test]
fn put_replaces_value_under_same_key() {
    let mut cache = LruCache::new(2);
    cache.put("k".to_string(), vec![1]);
    cache.put("k".to_string(), vec![2]);
    assert_eq!(cache.len(), 1);
    assert_eq!(cache.get(&"k".to_string()), Some(vec![2]));
}

#[test]
fn replace_counts_as_use() {
    // Re-inserting A makes it the most recently used, so B is evicted next.
    let mut cache = LruCache::new(2);
    cache.put("a".to_string(), vec![1]);
    cache.put("b".to_string(), vec![2]);
    cache.put("a".to_string(), vec![3]);
    cache.put("c".to_string(), vec![4]);
    assert_eq!(cache.len(), 2);
    assert_eq!(cache.get(&"a".to_string()), Some(vec![3]));
    assert!(cache.get(&"b".to_string()).is_none());
    assert_eq!(cache.get(&"c".to_string()), Some(vec![4]));
}

#[test]
fn capacity_bound_evicts_least_recently_used() {
    // Three distinct keys into a cache of capacity two: exactly two entries
    // remain, and the untouched oldest key is the one evicted.
    let mut cache = LruCache::new(2);
    cache.put("k1".to_string(), vec![1]);
    cache.put("k2".to_string(), vec![2]);
    cache.put("k3".to_string(), vec![3]);
    assert_eq!(cache.len(), 2);
    assert!(cache.get(&"k1".to_string()).is_none());
    assert_eq!(cache.get(&"k2".to_string()), Some(vec![2]));
    assert_eq!(cache.get(&"k3".to_string()), Some(vec![3]));
}

#[test]
fn recency_promotion_protects_looked_up_key() {
    // Capacity 2: insert A then B, look A up, insert C: B is evicted, not A.
    let mut cache = LruCache::new(2);
    cache.put("a".to_string(), vec![10]);
    cache.put("b".to_string(), vec![20]);
    assert_eq!(cache.get(&"a".to_string()), Some(vec![10]));
    cache.put("c".to_string(), vec![30]);
    assert_eq!(cache.len(), 2);
    assert!(cache.get(&"b".to_string()).is_none());
    assert_eq!(cache.get(&"a".to_string()), Some(vec![10]));
    assert_eq!(cache.get(&"c".to_string()), Some(vec![30]));
}

#[test]
fn capacity_one_keeps_only_newest() {
    let mut cache = LruCache::new(1);
    cache.put("a".to_string(), vec![1]);
    cache.put("b".to_string(), vec![2]);
    assert_eq!(cache.len(), 1);
    assert!(cache.get(&"a".to_string()).is_none());
    assert_eq!(cache.get(&"b".to_string()), Some(vec![2]));
}
