use aerodb::admission_control::{
    AdmissionControlConfig, AdmissionController, AdmissionError, TokenBucket, TOKEN_UNITS,
};

#[test]
fn rate_limit_grants_exactly_the_burst() {
    let config = AdmissionControlConfig { max_writes_per_second: 10, max_concurrent_queries: 100 };
    let mut controller = AdmissionController::new(config, 5_000);
    let mut granted = Vec::new();
    for _ in 0..20 {
        granted.push(controller.admit_write(5_000));
    }
    for (i, r) in granted.iter().enumerate() {
        if i < 10 {
            assert_eq!(*r, Ok(()));
        } else {
            assert_eq!(*r, Err(AdmissionError::RateLimited));
            assert_eq!(r.unwrap_err().code(), "AERO_ADMISSION_RATE_LIMITED");
        }
    }
}

#[test]
fn bucket_replenishes_in_proportion_to_time() {
    let mut bucket = TokenBucket::new(10, 10, 0);
    for _ in 0..10 {
        assert!(bucket.try_acquire(0, TOKEN_UNITS));
    }
    assert!(!bucket.try_acquire(0, TOKEN_UNITS));
    // 99 ms at 10 tokens a second: 0.99 of a token.
    assert!(!bucket.try_acquire(99_000_000, TOKEN_UNITS));
    // One more millisecond completes the token.
    assert!(bucket.try_acquire(100_000_000, TOKEN_UNITS));
    assert!(!bucket.try_acquire(100_000_000, TOKEN_UNITS));
    // A long pause fills the bucket to its capacity and no further.
    let later = 100_000_000 + 3_600_000_000_000;
    for _ in 0..10 {
        assert!(bucket.try_acquire(later, TOKEN_UNITS));
    }
    assert!(!bucket.try_acquire(later, TOKEN_UNITS));
}

#[test]
fn unlimited_writes_are_always_granted() {
    let mut controller = AdmissionController::new(AdmissionControlConfig::default(), 0);
    for _ in 0..1000 {
        assert!(controller.try_acquire_write(0));
    }
}

#[test]
fn concurrent_queries_are_bounded() {
    let config = AdmissionControlConfig { max_writes_per_second: 0, max_concurrent_queries: 2 };
    let mut controller = AdmissionController::new(config, 0);
    assert!(controller.try_acquire_query());
    let guard = controller.acquire_query_guard();
    assert!(guard.is_some());
    assert!(!controller.try_acquire_query());
    assert!(controller.acquire_query_guard().is_none());
    assert_eq!(controller.active_queries(), 2);
    controller.release_query_guard(guard.unwrap());
    assert_eq!(controller.active_queries(), 1);
    assert!(controller.try_acquire_query());
    controller.release_query();
    controller.release_query();
    assert_eq!(controller.active_queries(), 0);
}

#[test]
fn unlimited_queries_are_not_counted() {
    let config = AdmissionControlConfig { max_writes_per_second: 0, max_concurrent_queries: 0 };
    let mut controller = AdmissionController::new(config, 0);
    assert!(controller.try_acquire_query());
    assert_eq!(controller.active_queries(), 0);
    controller.release_query();
    assert_eq!(controller.active_queries(), 0);
}

#[test]
fn admission_config_defaults() {
    let config = AdmissionControlConfig::default();
    assert_eq!(config.max_writes_per_second, 0);
    assert_eq!(config.max_concurrent_queries, 100);
}
