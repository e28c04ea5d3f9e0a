use chrono::{TimeZone, Utc};
use specloop::breaker::{CircuitBreaker, CircuitState};

fn iso_of(epoch: i64) -> String {
    Utc.timestamp_opt(epoch, 0)
        .unwrap()
        .format("%Y-%m-%dT%H:%M:%SZ")
        .to_string()
}

fn fresh_breaker() -> CircuitBreaker {
    CircuitBreaker::new(
        CircuitState::Closed,
        0,
        String::new(),
        String::new(),
    )
}

#[test]
fn breaker_failures_monotone_until_reset() {
    let mut cb = fresh_breaker();
    let mut last = 0u32;
    for _ in 0..5 {
        cb.record(false, 100, "", "2024-01-01T00:00:00Z");
        assert!(cb.failures >= last);
        last = cb.failures;
    }
    assert_eq!(cb.failures, 5);
    cb.record(true, 100, "abc123", "2024-01-01T00:00:00Z");
    assert_eq!(cb.failures, 0);
    assert_eq!(cb.state, CircuitState::Closed);
    assert_eq!(cb.last_commit(), "abc123");
}

#[test]
fn breaker_opens_at_threshold_not_before() {
    let mut cb = fresh_breaker();
    cb.record(false, 3, "", "2024-01-01T00:00:00Z");
    cb.record(false, 3, "", "2024-01-01T00:01:00Z");
    assert_eq!(cb.state, CircuitState::Closed);
    assert_eq!(cb.failures, 2);
    cb.record(false, 3, "", "2024-01-01T00:02:00Z");
    assert_eq!(cb.state, CircuitState::Open);
    assert_eq!(cb.opened_at, "2024-01-01T00:02:00Z");
}

#[test]
fn breaker_cooldown_elapsed_goes_half_open() {
    let now: i64 = 1_700_000_000;
    let opened = iso_of(now - 30 * 60);
    let mut cb = CircuitBreaker::new(CircuitState::Open, 3, String::new(), opened);
    let allow = cb.check(30, now);
    assert!(allow);
    assert_eq!(cb.state, CircuitState::HalfOpen);
}

#[test]
fn breaker_cooldown_not_elapsed_denies() {
    let now: i64 = 1_700_000_000;
    let opened = iso_of(now - 29 * 60);
    let mut cb = CircuitBreaker::new(CircuitState::Open, 3, String::new(), opened);
    let allow = cb.check(30, now);
    assert!(!allow);
    assert_eq!(cb.state, CircuitState::Open);
    assert_eq!(cb.cooldown_remaining(30, now), 1);
}

#[test]
fn breaker_corrupt_timestamp_self_heals() {
    let mut cb = CircuitBreaker::new(
        CircuitState::Open,
        7,
        String::from("abc"),
        String::from("not-a-timestamp"),
    );
    let allow = cb.check(30, 1_700_000_000);
    assert!(allow);
    assert_eq!(cb.state, CircuitState::Closed);
    assert_eq!(cb.failures, 0);
    assert_eq!(cb.last_commit(), "abc");
}

#[test]
fn breaker_empty_timestamp_self_heals() {
    let mut cb = CircuitBreaker::new(CircuitState::Open, 4, String::new(), String::new());
    let allow = cb.check(30, 1_700_000_000);
    assert!(allow);
    assert_eq!(cb.state, CircuitState::Closed);
    assert_eq!(cb.failures, 0);
}

#[test]
fn breaker_half_open_allows_and_reopens_on_failure() {
    let mut cb = CircuitBreaker::new(CircuitState::HalfOpen, 3, String::new(), String::new());
    assert!(cb.check(30, 1_700_000_000));
    cb.record(false, 3, "", "2024-01-01T00:00:00Z");
    assert_eq!(cb.state, CircuitState::Open);
    let mut cb2 = CircuitBreaker::new(CircuitState::HalfOpen, 3, String::new(), String::new());
    cb2.record(true, 3, "head", "2024-01-01T00:00:00Z");
    assert_eq!(cb2.state, CircuitState::Closed);
}
