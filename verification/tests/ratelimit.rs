use golf_booker::web::ratelimit::{login_limiter, LoginLimiter, MAX_FAILURES, WINDOW_NANOS};

const SECS: u64 = 1_000_000_000;

#[test]
fn throttles_after_max_failures() {
    let mut lim = LoginLimiter::new(3, 300 * SECS);
    let t0 = 1_000 * SECS;
    assert!(lim.allowed_at("bob", t0));
    for _ in 0..3 {
        lim.record_failure_at("bob", t0);
    }
    assert!(!lim.allowed_at("bob", t0), "should be throttled after 3 fails");
    assert!(lim.allowed_at("alice", t0));
}

#[test]
fn window_resets_after_expiry() {
    let mut lim = LoginLimiter::new(3, 300 * SECS);
    let t0 = 1_000 * SECS;
    for _ in 0..3 {
        lim.record_failure_at("bob", t0);
    }
    assert!(!lim.allowed_at("bob", t0));
    let later = t0 + 301 * SECS;
    assert!(lim.allowed_at("bob", later), "window should have reset");
}

#[test]
fn evicts_stale_entries_to_bound_the_map() {
    let mut lim = LoginLimiter::new(3, 300 * SECS);
    let t0 = 1_000 * SECS;
    lim.record_failure_at("old", t0);
    assert_eq!(lim.len(), 1);
    let later = t0 + 301 * SECS;
    lim.record_failure_at("new", later);
    assert!(!lim.contains_key("old"), "stale entry should be evicted");
    assert!(lim.contains_key("new"));
    assert_eq!(lim.len(), 1);
}

#[test]
fn success_clears_failures() {
    let mut lim = LoginLimiter::new(3, 300 * SECS);
    let t0 = 1_000 * SECS;
    for _ in 0..3 {
        lim.record_failure_at("bob", t0);
    }
    assert!(!lim.allowed_at("bob", t0));
    lim.record_success("bob");
    assert!(lim.allowed_at("bob", t0));
}

#[test]
fn window_slides_over_recent_failures() {
    let mut lim = LoginLimiter::new(3, 300 * SECS);
    for t in [0, 290, 295, 301] {
        lim.record_failure_at("bob", t * SECS);
    }
    // 290s, 295s and 301s all lie in the 300s ending at 301s.
    assert_eq!(lim.fresh_failures_at("bob", 301 * SECS), 3);
    assert!(!lim.allowed_at("bob", 301 * SECS));
    // At 590s the failure at 290s has left the window.
    assert_eq!(lim.fresh_failures_at("bob", 590 * SECS), 2);
    assert!(lim.allowed_at("bob", 590 * SECS));
    // The failure at 0s was dropped when the one at 301s was recorded.
    assert_eq!(lim.len(), 3);
}

#[test]
fn failures_add_up_to_the_limit_within_a_window() {
    let mut lim = login_limiter();
    let t0 = 5 * SECS;
    for n in 0..MAX_FAILURES as u64 {
        assert!(lim.allowed_at("dave", t0 + n * SECS));
        lim.record_failure_at("dave", t0 + n * SECS);
    }
    assert!(!lim.allowed_at("dave", t0 + 10 * SECS));
    assert!(lim.allowed_at("erin", t0 + 10 * SECS));
}

#[test]
fn clock_reading_helpers_and_defaults() {
    let mut lim = login_limiter();
    assert!(lim.allowed("carol"));
    for _ in 0..MAX_FAILURES {
        lim.record_failure("carol");
    }
    assert!(!lim.allowed("carol"));
    assert_eq!(WINDOW_NANOS, 300 * SECS);
}
