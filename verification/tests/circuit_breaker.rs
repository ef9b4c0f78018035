use armature_http_client::{CircuitBreaker, CircuitBreakerConfig, CircuitState};
use std::time::{Duration, Instant};

#[test]
fn test_circuit_breaker_opens_after_failures() {
    let config = CircuitBreakerConfig {
        failure_threshold: 3,
        ..Default::default()
    };
    let mut cb = CircuitBreaker::new(config);

    assert_eq!(cb.state(), CircuitState::Closed);
    assert!(cb.is_allowed());

    // Record failures
    cb.record_failure();
    cb.record_failure();
    assert_eq!(cb.state(), CircuitState::Closed);

    cb.record_failure();
    assert_eq!(cb.state(), CircuitState::Open);
    assert!(!cb.is_allowed());
}

/// Two failures further apart than the failure window do not add up. The clock
/// readings are given, so nothing needs to wait.
#[test]
fn test_failure_window_actually_resets_after_real_elapsed_time() {
    let config = CircuitBreakerConfig {
        failure_threshold: 2,
        failure_window: Duration::from_millis(50),
        ..Default::default()
    };
    let mut cb = CircuitBreaker::new(config);
    let start = Instant::now();

    cb.record_failure_at(start);
    assert_eq!(cb.state_at(start), CircuitState::Closed);

    let later = start + Duration::from_millis(150);

    cb.record_failure_at(later);
    assert_eq!(
        cb.state_at(later),
        CircuitState::Closed,
        "failure window should have reset the count after real elapsed time"
    );
    assert_eq!(
        cb.failure_count(),
        1,
        "failure count should have been reset to 1, not accumulated"
    );
}

#[test]
fn test_circuit_breaker_success_resets_failures() {
    let config = CircuitBreakerConfig {
        failure_threshold: 3,
        ..Default::default()
    };
    let mut cb = CircuitBreaker::new(config);

    cb.record_failure();
    cb.record_failure();
    cb.record_success();

    assert_eq!(cb.failure_count(), 0);
    assert_eq!(cb.state(), CircuitState::Closed);
}

#[test]
fn breaker_config_defaults_and_setters() {
    let config = CircuitBreakerConfig::default();
    assert_eq!(config.failure_threshold, 5);
    assert_eq!(config.success_threshold, 3);
    assert_eq!(config.reset_timeout, Duration::from_secs(30));
    assert_eq!(config.half_open_requests, 3);
    assert_eq!(config.failure_window, Duration::from_secs(60));

    let config = CircuitBreakerConfig::new(7, Duration::from_secs(4))
        .with_success_threshold(2)
        .with_half_open_requests(9)
        .with_failure_window(Duration::from_secs(11));
    assert_eq!(config.failure_threshold, 7);
    assert_eq!(config.success_threshold, 2);
    assert_eq!(config.reset_timeout, Duration::from_secs(4));
    assert_eq!(config.half_open_requests, 9);
    assert_eq!(config.failure_window, Duration::from_secs(11));
    let copy = config.clone();
    assert_eq!(copy.failure_threshold, 7);
    assert_eq!(copy.failure_window, Duration::from_secs(11));
}

#[test]
fn failures_within_the_window_add_up_to_the_threshold() {
    let config = CircuitBreakerConfig::new(2, Duration::from_secs(30))
        .with_failure_window(Duration::from_millis(50));
    let mut cb = CircuitBreaker::new(config);
    let start = Instant::now();
    cb.record_failure_at(start);
    cb.record_failure_at(start + Duration::from_millis(50));
    assert_eq!(cb.state_at(start + Duration::from_millis(50)), CircuitState::Open);
    assert_eq!(cb.failure_count(), 2);
}

#[test]
fn an_open_circuit_turns_half_open_after_the_reset_timeout() {
    let config = CircuitBreakerConfig::new(1, Duration::from_secs(30)).with_half_open_requests(2);
    let mut cb = CircuitBreaker::new(config);
    let start = Instant::now();
    cb.record_failure_at(start);
    let early = start + Duration::from_millis(29_999);
    assert!(!cb.is_allowed_at(early));
    assert_eq!(cb.state_at(early), CircuitState::Open);

    let due = start + Duration::from_secs(30);
    assert_eq!(cb.state_at(due), CircuitState::HalfOpen);
    assert!(cb.is_allowed_at(due));
    assert!(cb.is_allowed_at(due));
    assert!(!cb.is_allowed_at(due), "only two requests are let through while half-open");
    assert_eq!(cb.state_at(due), CircuitState::HalfOpen);
}

#[test]
fn enough_successes_close_a_half_open_circuit() {
    let config = CircuitBreakerConfig::new(1, Duration::from_secs(1)).with_success_threshold(2);
    let mut cb = CircuitBreaker::new(config);
    let start = Instant::now();
    cb.record_failure_at(start);
    let due = start + Duration::from_secs(1);
    assert_eq!(cb.state_at(due), CircuitState::HalfOpen);
    cb.record_success();
    assert_eq!(cb.success_count(), 1);
    assert_eq!(cb.state_at(due), CircuitState::HalfOpen);
    cb.record_success();
    assert_eq!(cb.state_at(due), CircuitState::Closed);
    assert_eq!(cb.success_count(), 0);
    assert_eq!(cb.failure_count(), 0);
}

#[test]
fn a_failure_while_half_open_opens_again() {
    let config = CircuitBreakerConfig::new(1, Duration::from_secs(1));
    let mut cb = CircuitBreaker::new(config);
    let start = Instant::now();
    cb.record_failure_at(start);
    let due = start + Duration::from_secs(1);
    assert_eq!(cb.state_at(due), CircuitState::HalfOpen);
    cb.record_failure_at(due);
    assert_eq!(cb.state_at(due), CircuitState::Open);
    assert_eq!(
        cb.state_at(due + Duration::from_millis(999)),
        CircuitState::Open,
        "the reset timeout starts over"
    );
    assert_eq!(cb.state_at(due + Duration::from_secs(1)), CircuitState::HalfOpen);
}

#[test]
fn outcomes_are_ignored_while_open() {
    let config = CircuitBreakerConfig::new(1, Duration::from_secs(30));
    let mut cb = CircuitBreaker::new(config);
    let start = Instant::now();
    cb.record_failure_at(start);
    cb.record_success();
    cb.record_failure_at(start + Duration::from_secs(20));
    assert_eq!(cb.state_at(start + Duration::from_secs(29)), CircuitState::Open);
    assert_eq!(cb.state_at(start + Duration::from_secs(30)), CircuitState::HalfOpen);
}

#[test]
fn a_reset_closes_the_circuit() {
    let config = CircuitBreakerConfig::new(1, Duration::from_secs(30));
    let mut cb = CircuitBreaker::new(config);
    cb.record_failure();
    assert_eq!(cb.state(), CircuitState::Open);
    cb.reset();
    assert_eq!(cb.state(), CircuitState::Closed);
    assert_eq!(cb.failure_count(), 0);
    assert!(cb.is_allowed());
}

#[test]
fn a_threshold_of_one_is_reached_by_a_failure_after_the_window() {
    for threshold in [0, 1] {
        let config = CircuitBreakerConfig::new(threshold, Duration::from_secs(30))
            .with_failure_window(Duration::from_millis(50));
        let mut cb = CircuitBreaker::new(config);
        let start = Instant::now();
        cb.record_failure_at(start);
        assert_eq!(cb.state_at(start), CircuitState::Open);
        cb.reset();
        assert_eq!(cb.state_at(start), CircuitState::Closed);
        let later = start + Duration::from_millis(150);
        cb.record_failure_at(later);
        assert_eq!(cb.state_at(later), CircuitState::Open);
        assert_eq!(cb.failure_count(), 1);
    }
}
