use provider_runtime::cache::{CacheEntry, CacheGetOptions, ProviderCache, elapsed};

#[test]
fn set_returns_true_then_false_for_equal_values() {
    let mut cache = ProviderCache::<u64>::new();
    assert!(cache.set("k", 42u64, 0));
    assert!(!cache.set("k", 42u64, 10));
    // The no-op write refreshed the timestamp: not stale at 40 with window 35.
    let options = CacheGetOptions::new().with_stale_time(35);
    let got = cache.get_with_options("k", options, 40).unwrap();
    assert_eq!(got.data, 42);
    assert!(!got.is_stale);
}

#[test]
fn set_replaces_changed_value() {
    let mut cache = ProviderCache::<u64>::new();
    assert!(cache.set("k", 1u64, 0));
    assert!(cache.set("k", 2u64, 5));
    assert_eq!(cache.get("k", 6), Some(2));
}

#[test]
fn ttl_expiration_removes_entry_on_read() {
    let mut cache = ProviderCache::<u64>::new();
    cache.set("k", 9u64, 0);
    assert_eq!(cache.stats(100).entry_count, 1);
    let options = CacheGetOptions::new().with_expiration(100);
    // At exactly the window the entry still lives.
    assert_eq!(cache.get_with_options("k", options.clone(), 100).unwrap().data, 9);
    // Past the window it is removed and reported absent.
    assert!(cache.get_with_options("k", options, 101).is_none());
    assert_eq!(cache.stats(101).entry_count, 0);
    assert!(cache.peek("k").is_none());
}

#[test]
fn stale_data_is_served_and_kept() {
    let mut cache = ProviderCache::<u64>::new();
    cache.set("k", 9u64, 0);
    let options = CacheGetOptions::new().with_expiration(200).with_stale_time(50);
    let got = cache.get_with_options("k", options, 60).unwrap();
    assert_eq!(got.data, 9);
    assert!(got.is_stale);
    assert_eq!(cache.size(), 1);
}

#[test]
fn staleness_not_reported_without_check() {
    let mut cache = ProviderCache::<u64>::new();
    cache.set("k", 9u64, 0);
    let options = CacheGetOptions {
        expiration: None,
        stale_time: Some(10),
        check_staleness: false,
    };
    let got = cache.get_with_options("k", options, 60).unwrap();
    assert!(!got.is_stale);
}

#[test]
fn lru_eviction_keeps_most_recently_accessed() {
    let mut cache = ProviderCache::<u64>::new();
    for (i, key) in ["a", "b", "c", "d", "e"].iter().enumerate() {
        cache.set(key, i as u64, 0);
    }
    // Access order, oldest first: a (t=1), b (t=2), c (t=3), d (t=4), e (t=5).
    for (i, key) in ["a", "b", "c", "d", "e"].iter().enumerate() {
        cache.get(key, 1 + i as u64);
    }
    let evicted = cache.evict_lru_entries(3);
    assert_eq!(evicted, 2);
    assert_eq!(cache.size(), 3);
    assert!(cache.peek("a").is_none());
    assert!(cache.peek("b").is_none());
    assert!(cache.peek("c").is_some());
    assert!(cache.peek("d").is_some());
    assert!(cache.peek("e").is_some());
}

#[test]
fn lru_eviction_is_a_no_op_within_bound() {
    let mut cache = ProviderCache::<u64>::new();
    cache.set("a", 1u64, 0);
    cache.set("b", 2u64, 0);
    assert_eq!(cache.evict_lru_entries(2), 0);
    assert_eq!(cache.size(), 2);
}

#[test]
fn cleanup_removes_only_unused_entries() {
    let mut cache = ProviderCache::<u64>::new();
    cache.set("old", 1u64, 0);
    cache.set("fresh", 2u64, 0);
    cache.get("fresh", 90);
    // At t=100 with threshold 50: "old" was last touched at 0, "fresh" at 90.
    let removed = cache.cleanup_unused_entries(50, 100);
    assert_eq!(removed, 1);
    assert!(cache.peek("old").is_none());
    assert!(cache.peek("fresh").is_some());
}

#[test]
fn stats_report_counts_accesses_and_age() {
    let mut cache = ProviderCache::<u64>::new();
    cache.set("a", 1u64, 0);
    cache.set("b", 2u64, 20);
    cache.get("a", 30);
    cache.get("a", 40);
    cache.get("b", 40);
    let stats = cache.stats(50);
    assert_eq!(stats.entry_count, 2);
    assert_eq!(stats.total_accesses, 3);
    assert_eq!(stats.total_references, 0);
    // Ages at t=50: 50 and 30; the mean is 40.
    assert_eq!(stats.avg_age, 40);
    assert_eq!(stats.total_size_bytes, 2 * 1024);
}

#[test]
fn stats_of_empty_cache_are_zero() {
    let cache = ProviderCache::<u64>::new();
    let stats = cache.stats(1000);
    assert_eq!(stats.entry_count, 0);
    assert_eq!(stats.total_accesses, 0);
    assert_eq!(stats.avg_age, 0);
    assert_eq!(stats.total_size_bytes, 0);
}

#[test]
fn maintain_reports_final_size() {
    let mut cache = ProviderCache::<u64>::new();
    cache.set("a", 1u64, 0);
    let report = cache.maintain(10);
    assert_eq!(report.unused_removed, 0);
    assert_eq!(report.lru_evicted, 0);
    assert_eq!(report.final_size, 1);
}

#[test]
fn pending_requests_have_one_leader() {
    let mut cache = ProviderCache::<u64>::new();
    assert!(!cache.is_request_pending("k"));
    assert_eq!(cache.pending_request_count("k"), 0);
    assert!(cache.mark_request_pending("k"));
    assert!(!cache.mark_request_pending("k"));
    assert!(!cache.mark_request_pending("k"));
    assert!(cache.is_request_pending("k"));
    assert_eq!(cache.pending_request_count("k"), 3);
    cache.mark_request_complete("k");
    assert!(!cache.is_request_pending("k"));
    assert_eq!(cache.pending_request_count("k"), 0);
    // The next round has a fresh leader.
    assert!(cache.mark_request_pending("k"));
}

#[test]
fn get_tracks_access_history() {
    let mut cache = ProviderCache::<u64>::new();
    cache.set("k", 5u64, 0);
    assert_eq!(cache.peek("k").unwrap().access_count(), 0);
    assert_eq!(cache.get("k", 10), Some(5));
    assert_eq!(cache.get("k", 20), Some(5));
    let entry = cache.peek("k").unwrap();
    assert_eq!(entry.access_count(), 2);
    assert_eq!(entry.time_since_last_access(25), 5);
    assert_eq!(entry.age(25), 25);
    assert!(entry.is_unused_for(4, 25));
    assert!(!entry.is_unused_for(5, 25));
}

#[test]
fn get_of_missing_key_is_none() {
    let mut cache = ProviderCache::<u64>::new();
    assert_eq!(cache.get("missing", 0), None);
}

#[test]
fn remove_invalidate_and_clear_drop_entries() {
    let mut cache = ProviderCache::<u64>::new();
    cache.set("a", 1u64, 0);
    cache.set("b", 2u64, 0);
    assert!(cache.remove("a"));
    assert!(!cache.remove("a"));
    cache.invalidate("b");
    assert_eq!(cache.size(), 0);
    cache.set("c", 3u64, 0);
    cache.clear();
    assert_eq!(cache.size(), 0);
}

#[test]
fn cache_get_options_builders_set_fields() {
    let options = CacheGetOptions::new();
    assert!(options.expiration.is_none());
    assert!(options.stale_time.is_none());
    assert!(!options.check_staleness);
    let options = CacheGetOptions::new().with_expiration(300).with_stale_time(60);
    assert_eq!(options.expiration, Some(300));
    assert_eq!(options.stale_time, Some(60));
    assert!(options.check_staleness);
    let options = CacheGetOptions::new().check_staleness();
    assert!(options.check_staleness);
}

#[test]
fn elapsed_clamps_at_zero() {
    assert_eq!(elapsed(10, 50), 40);
    assert_eq!(elapsed(50, 10), 0);
    assert_eq!(elapsed(7, 7), 0);
}

#[test]
fn entry_tracks_write_and_access_times() {
    let mut entry = CacheEntry::new(5u64, 10);
    assert_eq!(entry.age(30), 20);
    assert!(!entry.is_expired(20, 30));
    assert!(entry.is_expired(19, 30));
    assert!(entry.is_stale(15, 30));
    assert!(!entry.is_stale(20, 30));
    assert_eq!(entry.get(40), 5);
    assert_eq!(entry.access_count(), 1);
    assert_eq!(entry.time_since_last_access(45), 5);
    entry.refresh_timestamp(50);
    assert_eq!(entry.age(55), 5);
    // Refreshing the write timestamp leaves the access history alone.
    assert_eq!(entry.access_count(), 1);
}

#[test]
fn no_op_set_does_not_reset_access_history() {
    let mut cache = ProviderCache::<u64>::new();
    cache.set("k", 3u64, 0);
    cache.get("k", 5);
    assert!(!cache.set("k", 3u64, 10));
    let entry = cache.peek("k").unwrap();
    assert_eq!(entry.access_count(), 1);
    assert_eq!(entry.age(12), 2);
}
