use armature_http_client::{
    BackoffStrategy, Delay, HttpClientError, Multiplier, RetryConfig, RetryStrategy, ScaledDelay,
    TransportError,
};
use std::time::Duration;

#[test]
fn test_exponential_backoff() {
    let strategy = BackoffStrategy::Exponential {
        initial: Duration::from_millis(100),
        max: Duration::from_secs(10),
        multiplier: Multiplier::Whole(2),
    };

    assert_eq!(strategy.delay_for_attempt(0), Duration::from_millis(100));
    assert_eq!(strategy.delay_for_attempt(1), Duration::from_millis(200));
    assert_eq!(strategy.delay_for_attempt(2), Duration::from_millis(400));
    assert_eq!(strategy.delay_for_attempt(3), Duration::from_millis(800));
}

#[test]
fn test_linear_backoff() {
    let strategy = BackoffStrategy::Linear {
        delay: Duration::from_millis(100),
        max: Duration::from_secs(1),
    };

    assert_eq!(strategy.delay_for_attempt(0), Duration::from_millis(100));
    assert_eq!(strategy.delay_for_attempt(1), Duration::from_millis(200));
    assert_eq!(strategy.delay_for_attempt(9), Duration::from_secs(1));
}

#[test]
fn test_constant_backoff() {
    let strategy = BackoffStrategy::Constant(Duration::from_millis(500));

    assert_eq!(strategy.delay_for_attempt(0), Duration::from_millis(500));
    assert_eq!(strategy.delay_for_attempt(5), Duration::from_millis(500));
}

#[test]
fn no_delay_without_backoff() {
    assert_eq!(BackoffStrategy::Immediate.delay_for_attempt(0), Duration::ZERO);
    assert_eq!(BackoffStrategy::Immediate.delay_for_attempt(7), Duration::ZERO);
}

#[test]
fn exponential_delays_stop_at_the_maximum() {
    let strategy = BackoffStrategy::Exponential {
        initial: Duration::from_millis(100),
        max: Duration::from_secs(10),
        multiplier: Multiplier::Whole(2),
    };
    assert_eq!(strategy.delay_for_attempt(6), Duration::from_millis(6400));
    assert_eq!(strategy.delay_for_attempt(7), Duration::from_secs(10));
    assert_eq!(strategy.delay_for_attempt(u32::MAX), Duration::from_secs(10));
}

#[test]
fn exponential_delays_count_whole_milliseconds() {
    let strategy = BackoffStrategy::Exponential {
        initial: Duration::from_micros(1999),
        max: Duration::from_secs(10),
        multiplier: Multiplier::Whole(3),
    };
    assert_eq!(strategy.delay_for_attempt(0), Duration::from_millis(1));
    assert_eq!(strategy.delay_for_attempt(2), Duration::from_millis(9));
}

#[test]
fn exponential_delays_saturate() {
    let strategy = BackoffStrategy::Exponential {
        initial: Duration::from_secs(1),
        max: Duration::MAX,
        multiplier: Multiplier::Whole(u32::MAX),
    };
    assert_eq!(strategy.delay_for_attempt(40), Duration::from_millis(u64::MAX));
}

#[test]
fn a_multiplier_of_zero_or_one() {
    let zero = BackoffStrategy::Exponential {
        initial: Duration::from_millis(5),
        max: Duration::from_secs(1),
        multiplier: Multiplier::Whole(0),
    };
    assert_eq!(zero.delay_for_attempt(0), Duration::from_millis(5));
    assert_eq!(zero.delay_for_attempt(1), Duration::ZERO);
    let one = BackoffStrategy::Exponential {
        initial: Duration::from_millis(5),
        max: Duration::from_secs(1),
        multiplier: Multiplier::Whole(1),
    };
    assert_eq!(one.delay_for_attempt(1_000_000), Duration::from_millis(5));
}

#[test]
fn linear_delays_saturate() {
    let strategy = BackoffStrategy::Linear {
        delay: Duration::MAX,
        max: Duration::MAX,
    };
    assert_eq!(strategy.delay_for_attempt(3), Duration::MAX);
}

#[test]
fn a_real_multiplier_says_what_to_scale() {
    let strategy = BackoffStrategy::Exponential {
        initial: Duration::from_millis(100),
        max: Duration::from_secs(2),
        multiplier: Multiplier::Real(1.5f64.to_bits()),
    };
    match strategy.backoff_for_attempt(3) {
        Delay::Scaled(scaled) => {
            assert_eq!(scaled.millis, 100);
            assert_eq!(f64::from_bits(scaled.multiplier), 1.5);
            assert_eq!(scaled.exponent, 3);
            assert_eq!(scaled.max, Duration::from_secs(2));
            assert_eq!(scaled.resolve(337), Duration::from_millis(337));
            assert_eq!(scaled.resolve(2001), Duration::from_secs(2));
        }
        Delay::Fixed(d) => panic!("a real multiplier has no fixed delay, got {d:?}"),
    }
    match strategy.backoff_for_attempt(u32::MAX) {
        Delay::Scaled(ScaledDelay { exponent, .. }) => assert_eq!(exponent, i32::MAX),
        Delay::Fixed(d) => panic!("a real multiplier has no fixed delay, got {d:?}"),
    }
}

#[test]
fn other_strategies_have_fixed_delays() {
    let strategy = BackoffStrategy::Linear {
        delay: Duration::from_millis(10),
        max: Duration::from_secs(1),
    };
    assert!(matches!(
        strategy.backoff_for_attempt(2),
        Delay::Fixed(d) if d == Duration::from_millis(30)
    ));
}

#[test]
fn retry_config_defaults_and_constructors() {
    let config = RetryConfig::default();
    assert_eq!(config.max_attempts, 3);
    assert_eq!(config.retry_status_codes, vec![408, 429, 500, 502, 503, 504]);
    assert!(config.retry_on_connection_error);
    assert!(config.retry_on_timeout);
    assert_eq!(config.max_retry_time, Some(Duration::from_secs(60)));
    assert_eq!(config.delay_for_attempt(1), Duration::from_millis(200));
    assert_eq!(config.delay_for_attempt(20), Duration::from_secs(10));

    let exponential = RetryConfig::exponential(4, Duration::from_millis(10));
    assert_eq!(exponential.max_attempts, 4);
    assert_eq!(exponential.delay_for_attempt(2), Duration::from_millis(40));
    assert_eq!(exponential.delay_for_attempt(30), Duration::from_secs(30));

    let linear = RetryConfig::linear(5, Duration::from_secs(7));
    assert_eq!(linear.max_attempts, 5);
    assert_eq!(linear.delay_for_attempt(1), Duration::from_secs(14));
    assert_eq!(linear.delay_for_attempt(9), Duration::from_secs(30));

    let constant = RetryConfig::constant(6, Duration::from_secs(70));
    assert_eq!(constant.delay_for_attempt(9), Duration::from_secs(70));

    let immediate = RetryConfig::immediate(2);
    assert_eq!(immediate.max_attempts, 2);
    assert_eq!(immediate.delay_for_attempt(1), Duration::ZERO);
}

#[test]
fn retry_config_setters() {
    let config = RetryConfig::immediate(2)
        .with_status_codes(vec![418])
        .no_retry_on_connection()
        .no_retry_on_timeout()
        .with_max_retry_time(Duration::from_secs(5));
    assert_eq!(config.max_attempts, 2);
    assert!(config.should_retry_status(418));
    assert!(config.should_retry_status(503), "the codes are additional");
    assert!(!config.should_retry_status(404));
    assert_eq!(config.retry_status_codes, vec![408, 429, 500, 502, 503, 504, 418]);
    assert!(!config.retry_on_connection_error);
    assert!(!config.retry_on_timeout);
    assert_eq!(config.max_retry_time, Some(Duration::from_secs(5)));
    let copy = config.clone();
    assert_eq!(copy.retry_status_codes, vec![408, 429, 500, 502, 503, 504, 418]);
    assert_eq!(copy.max_retry_time, Some(Duration::from_secs(5)));
}

fn transport(timeout: bool, connect: bool, status: Option<u16>) -> HttpClientError {
    HttpClientError::Http(TransportError {
        message: "lost".to_string(),
        timeout,
        connect,
        status,
    })
}

#[test]
fn errors_are_retried_by_kind() {
    let config = RetryConfig::immediate(3);
    assert!(config.should_retry(0, &HttpClientError::Timeout(Duration::from_secs(1))));
    assert!(config.should_retry(2, &HttpClientError::Connection("refused".to_string())));
    assert!(config.should_retry(
        0,
        &HttpClientError::Response { status: 503, message: String::new() }
    ));
    assert!(!config.should_retry(
        0,
        &HttpClientError::Response { status: 404, message: String::new() }
    ));
    assert!(config.should_retry(0, &transport(true, false, None)));
    assert!(config.should_retry(0, &transport(false, true, None)));
    assert!(config.should_retry(0, &transport(false, false, Some(429))));
    assert!(!config.should_retry(0, &transport(false, false, Some(400))));
    assert!(!config.should_retry(0, &transport(false, false, None)));
    assert!(!config.should_retry(0, &HttpClientError::CircuitOpen));
    assert!(!config.should_retry(0, &HttpClientError::Interceptor("no".to_string())));
    assert!(!config.should_retry(0, &HttpClientError::Io("pipe".to_string())));
}

#[test]
fn nothing_is_retried_once_attempts_are_used_up_or_switched_off() {
    let config = RetryConfig::immediate(3);
    assert!(!config.should_retry(3, &HttpClientError::Timeout(Duration::from_secs(1))));
    let config = RetryConfig::immediate(3).no_retry_on_timeout().no_retry_on_connection();
    assert!(!config.should_retry(0, &HttpClientError::Timeout(Duration::from_secs(1))));
    assert!(!config.should_retry(0, &HttpClientError::Connection("refused".to_string())));
    assert!(!config.should_retry(0, &transport(true, false, Some(503))));
    assert!(!config.should_retry(0, &transport(false, true, Some(503))));
    assert!(config.should_retry(0, &transport(false, false, Some(503))));
    assert_eq!(RetryConfig::linear(3, Duration::from_secs(1)).retry_delay(1), Duration::from_secs(2));
}
