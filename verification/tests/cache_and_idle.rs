use whatawhat_watcher::idle::{Status, Tracker};
use whatawhat_watcher::simple_cache::{CacheConfig, SimpleCache};

#[test]
fn cache_returns_value_before_expiry() {
    let mut cache: SimpleCache<u32> = SimpleCache::new(CacheConfig { ttl: 1000, max_size: 10 });
    cache.set(String::from("key"), 7, 1000);
    assert_eq!(cache.get(&String::from("key"), 1999).copied(), Some(7));
}

#[test]
fn cache_expires_value_at_and_after_ttl() {
    let mut cache: SimpleCache<u32> = SimpleCache::new(CacheConfig { ttl: 1000, max_size: 10 });
    cache.set(String::from("key"), 7, 1000);
    assert_eq!(cache.get(&String::from("key"), 2001).copied(), None);

    cache.set(String::from("key"), 7, 3000);
    // A tie counts as expired: validity is `now - timestamp < ttl`.
    assert_eq!(cache.get(&String::from("key"), 4000).copied(), None);
}

#[test]
fn cache_get_removes_expired_entry() {
    let mut cache: SimpleCache<u32> = SimpleCache::new(CacheConfig { ttl: 1000, max_size: 10 });
    cache.set(String::from("key"), 7, 0);
    assert_eq!(cache.len(), 1);
    assert_eq!(cache.get(&String::from("key"), 5000).copied(), None);
    assert_eq!(cache.len(), 0);
}

#[test]
fn cache_overwrites_existing_key() {
    let mut cache: SimpleCache<u32> = SimpleCache::new(CacheConfig { ttl: 1000, max_size: 10 });
    cache.set(String::from("key"), 1, 0);
    cache.set(String::from("key"), 2, 10);
    assert_eq!(cache.len(), 1);
    assert_eq!(cache.get(&String::from("key"), 20).copied(), Some(2));
}

#[test]
fn cache_sweep_removes_only_expired_entries() {
    let mut cache: SimpleCache<u32> = SimpleCache::new(CacheConfig { ttl: 1000, max_size: 2 });
    cache.set(String::from("old1"), 1, 0);
    cache.set(String::from("old2"), 2, 10);
    // This insertion pushes the table past max_size and triggers the sweep
    // at t=2000: both old entries are expired by then, the new one is not.
    cache.set(String::from("new"), 3, 2000);
    assert_eq!(cache.len(), 1);
    assert_eq!(cache.get(&String::from("new"), 2000).copied(), Some(3));
    assert_eq!(cache.get(&String::from("old1"), 2000).copied(), None);
}

#[test]
fn cache_sweep_retains_unexpired_entries_beyond_max_size() {
    let mut cache: SimpleCache<u32> = SimpleCache::new(CacheConfig { ttl: 1000, max_size: 2 });
    cache.set(String::from("a"), 1, 2000);
    cache.set(String::from("b"), 2, 2001);
    cache.set(String::from("c"), 3, 2002);
    // The sweep ran but every entry was still valid: no LRU eviction, the
    // table stays over max_size until entries age out.
    assert_eq!(cache.len(), 3);
    assert_eq!(cache.get(&String::from("a"), 2002).copied(), Some(1));
}

#[test]
fn cache_cleanup_sweeps_whole_table() {
    let mut cache: SimpleCache<u32> = SimpleCache::new(CacheConfig { ttl: 1000, max_size: 10 });
    cache.set(String::from("a"), 1, 0);
    cache.set(String::from("b"), 2, 1500);
    cache.cleanup(2000);
    assert_eq!(cache.len(), 1);
    assert_eq!(cache.get(&String::from("b"), 2000).copied(), Some(2));
}

#[test]
fn push_protocol_first_read_reports_change() {
    let mut tracker = Tracker::new(0, 5000);
    tracker.mark_idle(10);
    match tracker.get_reactive(1000) {
        Status::Idle { changed, last_input_time, duration } => {
            assert!(changed);
            assert_eq!(last_input_time, 0);
            assert_eq!(duration, 1000);
        },
        Status::Active { .. } => panic!("expected idle"),
    }
}

#[test]
fn push_protocol_second_read_clears_change_and_duration_grows() {
    let mut tracker = Tracker::new(0, 5000);
    tracker.mark_idle(10);
    let first = tracker.get_reactive(1000);
    let second = tracker.get_reactive(2500);
    match (first, second) {
        (
            Status::Idle { duration: d1, .. },
            Status::Idle { changed, duration: d2, .. },
        ) => {
            assert!(!changed);
            assert!(d2 >= d1);
            assert_eq!(d2, 2500);
        },
        _ => panic!("expected idle twice"),
    }
}

#[test]
fn mark_not_idle_resets_input_time_and_latches_change() {
    let mut tracker = Tracker::new(0, 5000);
    tracker.mark_idle(10);
    let _ = tracker.get_reactive(100);
    tracker.mark_not_idle(200);
    match tracker.get_reactive(300) {
        Status::Active { changed, last_input_time } => {
            assert!(changed);
            assert_eq!(last_input_time, 200);
        },
        Status::Idle { .. } => panic!("expected active"),
    }
}

#[test]
fn polled_protocol_tie_counts_as_idle() {
    let mut tracker = Tracker::new(0, 5000);
    match tracker.get_with_last_input(10000, 5) {
        Status::Idle { changed, last_input_time, duration } => {
            assert!(changed);
            assert_eq!(last_input_time, 5000);
            assert_eq!(duration, 5000);
        },
        Status::Active { .. } => panic!("a tie must count as idle"),
    }
}

#[test]
fn polled_protocol_below_threshold_stays_active() {
    let mut tracker = Tracker::new(0, 5000);
    match tracker.get_with_last_input(10000, 4) {
        Status::Active { changed, last_input_time } => {
            assert!(!changed);
            assert_eq!(last_input_time, 6000);
        },
        Status::Idle { .. } => panic!("below the threshold must stay active"),
    }
}

#[test]
fn polled_protocol_recovers_from_idle() {
    let mut tracker = Tracker::new(0, 5000);
    let _ = tracker.get_with_last_input(10000, 5);
    match tracker.get_with_last_input(11000, 1) {
        Status::Active { changed, .. } => assert!(changed),
        Status::Idle { .. } => panic!("fresh input must end the idle state"),
    }
}

#[test]
fn reactive_clamp_keeps_recent_input_time() {
    let mut tracker = Tracker::new(0, 5000);
    tracker.mark_not_idle(1000);
    let _ = tracker.get_reactive(1000);
    match tracker.get_reactive(5000) {
        Status::Active { last_input_time, .. } => assert_eq!(last_input_time, 1000),
        Status::Idle { .. } => panic!("expected active"),
    }
}

#[test]
fn reactive_clamp_bounds_input_time_by_timeout_and_resumption() {
    let mut tracker = Tracker::new(0, 5000);
    tracker.mark_not_idle(1000);
    let _ = tracker.get_reactive(5000);
    match tracker.get_reactive(7000) {
        Status::Active { last_input_time, .. } => {
            assert_eq!(last_input_time, 2000);
            assert!(last_input_time >= 1000);
        },
        Status::Idle { .. } => panic!("expected active"),
    }
}

#[test]
fn change_latch_resets_on_every_read() {
    let mut tracker = Tracker::new(0, 5000);
    tracker.mark_idle(10);
    match tracker.get_reactive(100) {
        Status::Idle { changed, .. } => assert!(changed),
        _ => panic!("expected idle"),
    }
    match tracker.get_reactive(200) {
        Status::Idle { changed, .. } => assert!(!changed),
        _ => panic!("expected idle"),
    }
    tracker.mark_not_idle(300);
    match tracker.get_reactive(400) {
        Status::Active { changed, .. } => assert!(changed),
        _ => panic!("expected active"),
    }
    match tracker.get_reactive(500) {
        Status::Active { changed, .. } => assert!(!changed),
        _ => panic!("expected active"),
    }
}
