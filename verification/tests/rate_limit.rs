use stateset_icp_handler::crypto::body_sha256;
use stateset_icp_handler::rate_limit::{
    decide_shared, RateLimitDecision, RateLimiter, RedisRateLimiter, SharedCount,
};

const MINUTE: u128 = 60_000_000_000;

#[test]
fn within_limit_allows() {
    let mut rl = RateLimiter::new(3, MINUTE);
    let now: u128 = 5_000_000_000;
    for _ in 0..3 {
        assert!(matches!(
            rl.check_at("t", 3, now),
            RateLimitDecision::Allowed { .. }
        ));
    }
}

#[test]
fn fourth_call_in_same_window_is_denied() {
    let mut rl = RateLimiter::new(3, MINUTE);
    let now: u128 = 5_000_000_000;
    for _ in 0..3 {
        rl.check_at("t", 3, now);
    }
    match rl.check_at("t", 3, now) {
        RateLimitDecision::Denied {
            limit,
            retry_after_secs,
        } => {
            assert_eq!(limit, 3);
            assert!((1..=60).contains(&retry_after_secs));
        }
        other => panic!("expected Denied, got {other:?}"),
    }
}

#[test]
fn next_window_clears_counter() {
    let mut rl = RateLimiter::new(2, MINUTE);
    let now: u128 = 5_000_000_000;
    rl.check_at("t", 2, now);
    rl.check_at("t", 2, now);
    assert!(matches!(
        rl.check_at("t", 2, now),
        RateLimitDecision::Denied { .. }
    ));
    let later = now + 61_000_000_000;
    assert!(matches!(
        rl.check_at("t", 2, later),
        RateLimitDecision::Allowed { .. }
    ));
}

#[test]
fn distinct_tenants_dont_share_buckets() {
    let mut rl = RateLimiter::new(1, MINUTE);
    let now: u128 = 5_000_000_000;
    rl.check_at("a", 1, now);
    rl.check_at("b", 1, now);
    assert!(matches!(
        rl.check_at("a", 1, now),
        RateLimitDecision::Denied { .. }
    ));
    assert!(matches!(
        rl.check_at("b", 1, now),
        RateLimitDecision::Denied { .. }
    ));
}

#[test]
fn capacity_zero_means_unlimited() {
    let mut rl = RateLimiter::new(5, MINUTE);
    for _ in 0..1000 {
        assert!(matches!(
            rl.check("infinite-tenant", Some(0)),
            RateLimitDecision::Allowed { .. }
        ));
    }
    assert_eq!(rl.tracked_tenants(), 0);
}

#[test]
fn capacity_zero_is_unlimited_at_any_instant() {
    let mut rl = RateLimiter::new(5, MINUTE);
    for _ in 0..10 {
        match rl.check_at("t", 0, 5_000_000_000) {
            RateLimitDecision::Allowed { limit, remaining, reset_in_secs } => {
                assert_eq!((limit, remaining, reset_in_secs), (0, u32::MAX, 60));
            }
            other => panic!("{other:?}"),
        }
    }
    assert_eq!(rl.tracked_tenants(), 0);
}

#[test]
fn waits_are_at_least_a_second() {
    let mut rl = RateLimiter::new(1, 500_000_000);
    assert_eq!((rl.default_capacity(), rl.window_nanos()), (1, 500_000_000));
    assert!(matches!(
        rl.check_at("t", 1, 100_000_000),
        RateLimitDecision::Allowed { reset_in_secs: 1, .. }
    ));
    assert!(matches!(
        rl.check_at("t", 1, 100_000_000),
        RateLimitDecision::Denied { retry_after_secs: 1, .. }
    ));
    assert!(matches!(
        rl.check_at("t", 0, 100_000_000),
        RateLimitDecision::Allowed { reset_in_secs: 1, .. }
    ));
}

#[test]
fn exactly_the_first_requests_of_a_window_are_allowed() {
    let mut rl = RateLimiter::new(4, MINUTE);
    for n in 1..=10 {
        let allowed = matches!(
            rl.check_at("t", 4, 60_000_000_000 + n * 1_000_000_000),
            RateLimitDecision::Allowed { .. }
        );
        assert_eq!(allowed, n <= 4);
    }
}

#[test]
fn remaining_reflects_count_post_increment() {
    let mut rl = RateLimiter::new(3, MINUTE);
    let now: u128 = 5_000_000_000;
    let RateLimitDecision::Allowed { remaining, .. } = rl.check_at("t", 3, now) else {
        panic!()
    };
    assert_eq!(remaining, 2);
    let RateLimitDecision::Allowed { remaining, .. } = rl.check_at("t", 3, now) else {
        panic!()
    };
    assert_eq!(remaining, 1);
    let RateLimitDecision::Allowed { remaining, .. } = rl.check_at("t", 3, now) else {
        panic!()
    };
    assert_eq!(remaining, 0);
}

#[test]
fn the_clock_fills_one_bucket_per_tenant() {
    let mut rl = RateLimiter::per_minute(2);
    assert!(matches!(
        rl.check("t", None),
        RateLimitDecision::Allowed { remaining: 1, limit: 2, .. }
    ));
    assert!(matches!(rl.check("t", None), RateLimitDecision::Allowed { .. }));
    assert_eq!(rl.tracked_tenants(), 1);
    rl.clear();
    assert_eq!(rl.tracked_tenants(), 0);
}

#[test]
fn reset_counts_down_within_the_window() {
    let mut rl = RateLimiter::new(3, MINUTE);
    match rl.check_at("t", 3, 0) {
        RateLimitDecision::Allowed { reset_in_secs, .. } => assert_eq!(reset_in_secs, 60),
        other => panic!("{other:?}"),
    }
    match rl.check_at("t", 3, 15_000_000_000) {
        RateLimitDecision::Allowed { reset_in_secs, .. } => assert_eq!(reset_in_secs, 45),
        other => panic!("{other:?}"),
    }
}

#[test]
fn shared_counts_have_one_key_per_window() {
    let rl = RedisRateLimiter::per_minute("icp:rate_limit:tenant", 10);
    assert_eq!((rl.default_capacity(), rl.window_seconds()), (10, 60));
    let digest = body_sha256(b"t");
    assert_eq!(
        rl.key("t", 7),
        format!("icp:rate_limit:tenant:7:{digest}")
    );
    match rl.plan("t", None, 430) {
        SharedCount::Count { key, ttl_secs, capacity, reset_in_secs } => {
            assert_eq!(key, rl.key("t", 7));
            assert_eq!(capacity, 10);
            assert_eq!(reset_in_secs, 50);
            assert_eq!(ttl_secs, 61);
        }
        SharedCount::Unlimited(_) => panic!(),
    }
    assert!(matches!(rl.plan("t", Some(0), 430), SharedCount::Unlimited(_)));
}

#[test]
fn shared_counts_decide_like_local_ones() {
    match decide_shared(3, 3, 20) {
        RateLimitDecision::Allowed { limit, remaining, reset_in_secs } => {
            assert_eq!((limit, remaining, reset_in_secs), (3, 0, 20));
        }
        other => panic!("{other:?}"),
    }
    match decide_shared(4, 3, 20) {
        RateLimitDecision::Denied { limit, retry_after_secs } => {
            assert_eq!((limit, retry_after_secs), (3, 20));
        }
        other => panic!("{other:?}"),
    }
}
