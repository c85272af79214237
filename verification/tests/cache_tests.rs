use qbz_core::cache::AudioCache;

#[test]
fn size_bound_holds_after_every_insert() {
    // Sum of cached entry sizes stays within the capacity over an
    // arbitrary insert sequence.
    let mut cache = AudioCache::new(100);
    let sizes = vec![40usize, 40, 40, 10, 90, 1, 100, 55, 55];
    for (i, size) in sizes.iter().enumerate() {
        cache.insert(i as u64, vec![0u8; *size]);
        let stats = cache.stats();
        assert!(stats.current_size_bytes <= stats.max_size_bytes);
        assert_eq!(stats.max_size_bytes, 100);
    }
}

#[test]
fn oversized_payload_is_rejected() {
    let mut cache = AudioCache::new(10);
    cache.insert(1, vec![0u8; 4]);
    let before = cache.stats();
    cache.insert(2, vec![0u8; 11]);
    let after = cache.stats();
    assert_eq!(before.cached_tracks, after.cached_tracks);
    assert_eq!(before.current_size_bytes, after.current_size_bytes);
    assert!(!cache.contains(2));
}

#[test]
fn promotion_changes_eviction_order() {
    // Fill to capacity with three tracks, touch the oldest, then insert
    // a fourth: the untouched middle track is evicted first.
    let mut cache = AudioCache::new(30);
    cache.insert(1, vec![1u8; 10]);
    cache.insert(2, vec![2u8; 10]);
    cache.insert(3, vec![3u8; 10]);
    assert!(cache.get(1).is_some());
    cache.insert(4, vec![4u8; 10]);
    assert!(!cache.contains(2));
    assert!(cache.contains(1));
    assert!(cache.contains(3));
    assert!(cache.contains(4));
}

#[test]
fn eviction_removes_oldest_first() {
    let mut cache = AudioCache::new(30);
    cache.insert(1, vec![1u8; 10]);
    cache.insert(2, vec![2u8; 10]);
    cache.insert(3, vec![3u8; 10]);
    cache.insert(4, vec![4u8; 25]);
    assert!(!cache.contains(1));
    assert!(!cache.contains(2));
    assert!(!cache.contains(3));
    assert!(cache.contains(4));
    assert_eq!(cache.stats().current_size_bytes, 25);
}

#[test]
fn clear_zeroes_all_counters() {
    let mut cache = AudioCache::new(50);
    cache.insert(1, vec![0u8; 20]);
    cache.insert(2, vec![0u8; 20]);
    cache.mark_fetching(7);
    cache.clear();
    let stats = cache.stats();
    assert_eq!(stats.cached_tracks, 0);
    assert_eq!(stats.current_size_bytes, 0);
    assert_eq!(stats.fetching_count, 0);
    assert_eq!(stats.max_size_bytes, 50);
}

#[test]
fn get_returns_payload_and_misses_are_none() {
    let mut cache = AudioCache::new(100);
    cache.insert(5, vec![9u8, 8, 7]);
    let hit = cache.get(5).unwrap();
    assert_eq!(hit.track_id, 5);
    assert_eq!(hit.data, vec![9u8, 8, 7]);
    assert_eq!(hit.size_bytes, 3);
    assert!(cache.get(6).is_none());
}

#[test]
fn reinsert_same_id_adjusts_size_by_delta() {
    let mut cache = AudioCache::new(100);
    cache.insert(1, vec![0u8; 30]);
    cache.insert(1, vec![0u8; 50]);
    let stats = cache.stats();
    assert_eq!(stats.cached_tracks, 1);
    assert_eq!(stats.current_size_bytes, 50);
    assert_eq!(cache.get(1).unwrap().size_bytes, 50);
}

#[test]
fn fetching_set_tracks_membership() {
    let mut cache = AudioCache::new(10);
    assert!(!cache.is_fetching(1));
    cache.mark_fetching(1);
    cache.mark_fetching(1);
    assert!(cache.is_fetching(1));
    assert_eq!(cache.stats().fetching_count, 1);
    cache.unmark_fetching(1);
    assert!(!cache.is_fetching(1));
    cache.unmark_fetching(1);
    assert_eq!(cache.stats().fetching_count, 0);
}

#[test]
fn reserve_fetch_is_single_flight() {
    let mut cache = AudioCache::new(100);
    assert!(cache.reserve_fetch(1));
    assert!(!cache.reserve_fetch(1));
    cache.unmark_fetching(1);
    cache.insert(1, vec![0u8; 5]);
    assert!(!cache.reserve_fetch(1));
    assert!(cache.reserve_fetch(2));
}

#[test]
fn evict_to_fit_makes_room() {
    let mut cache = AudioCache::new(30);
    cache.insert(1, vec![0u8; 10]);
    cache.insert(2, vec![0u8; 10]);
    cache.insert(3, vec![0u8; 10]);
    cache.evict_to_fit(15);
    let stats = cache.stats();
    assert!(stats.current_size_bytes + 15 <= stats.max_size_bytes);
    assert!(!cache.contains(1));
    assert!(!cache.contains(2));
    assert!(cache.contains(3));
}

#[test]
fn default_cache_capacity() {
    let cache = AudioCache::default();
    let stats = cache.stats();
    assert_eq!(stats.max_size_bytes, 500 * 1024 * 1024);
    assert_eq!(stats.cached_tracks, 0);
    assert_eq!(stats.current_size_bytes, 0);
    assert_eq!(stats.fetching_count, 0);
}
