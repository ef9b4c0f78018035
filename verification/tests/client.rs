use armature_http_client::{
    CircuitBreakerConfig, CircuitState, HttpClient, HttpClientConfig, RedirectPolicy, RetryConfig,
};
use std::time::Duration;

#[test]
fn test_client_creation() {
    let client: HttpClient = HttpClient::default();
    assert!(client.config().gzip);
    assert!(client.config().brotli);
}

#[test]
fn test_client_with_config() {
    let config = HttpClientConfig::builder()
        .timeout(Duration::from_secs(60))
        .base_url("https://api.example.com")
        .build();

    let client: HttpClient = HttpClient::new(config);
    assert_eq!(client.config().timeout, Duration::from_secs(60));
    assert_eq!(
        client.config().base_url.as_deref(),
        Some("https://api.example.com")
    );
}

#[test]
fn config_defaults() {
    let config = HttpClientConfig::default();
    assert_eq!(config.base_url, None);
    assert_eq!(config.timeout, Duration::from_secs(30));
    assert_eq!(config.connect_timeout, Duration::from_secs(10));
    assert!(config.retry.is_none());
    assert!(config.circuit_breaker.is_none());
    assert_eq!(config.pool_idle_timeout, Duration::from_secs(90));
    assert_eq!(config.pool_max_idle_per_host, 32);
    assert!(config.default_headers.is_empty());
    assert_eq!(config.user_agent, "armature-http-client/0.1.0");
    assert!(config.follow_redirects);
    assert_eq!(config.max_redirects, 10);
}

#[test]
fn config_setters() {
    let config = HttpClientConfig::builder()
        .connect_timeout(Duration::from_secs(3))
        .retry(RetryConfig::immediate(2).with_status_codes(vec![418]))
        .circuit_breaker(CircuitBreakerConfig::new(4, Duration::from_secs(9)))
        .pool_idle_timeout(Duration::from_secs(8))
        .pool_max_idle_per_host(5)
        .default_header("X-One", "1")
        .default_header("X-Two", "2")
        .user_agent("probe/1")
        .gzip(false)
        .brotli(false)
        .follow_redirects(false)
        .max_redirects(4)
        .build();
    let copy = config.clone();
    for c in [&config, &copy] {
        assert_eq!(c.connect_timeout, Duration::from_secs(3));
        assert_eq!(c.retry.as_ref().map(|r| r.max_attempts), Some(2));
        assert_eq!(
            c.retry.as_ref().map(|r| r.retry_status_codes.clone()),
            Some(vec![408, 429, 500, 502, 503, 504, 418])
        );
        assert_eq!(c.circuit_breaker.as_ref().map(|b| b.failure_threshold), Some(4));
        assert_eq!(c.pool_idle_timeout, Duration::from_secs(8));
        assert_eq!(c.pool_max_idle_per_host, 5);
        assert_eq!(
            c.default_headers,
            vec![
                ("X-One".to_string(), "1".to_string()),
                ("X-Two".to_string(), "2".to_string()),
            ]
        );
        assert_eq!(c.user_agent, "probe/1");
        assert!(!c.gzip);
        assert!(!c.brotli);
        assert!(!c.follow_redirects);
        assert_eq!(c.max_redirects, 4);
    }
}

#[test]
fn transport_settings_follow_the_configuration() {
    let client: HttpClient = HttpClient::default_client();
    let settings = client.transport_settings();
    assert_eq!(settings.timeout, Duration::from_secs(30));
    assert_eq!(settings.connect_timeout, Duration::from_secs(10));
    assert_eq!(settings.pool_idle_timeout, Duration::from_secs(90));
    assert_eq!(settings.pool_max_idle_per_host, 32);
    assert_eq!(settings.user_agent, "armature-http-client/0.1.0");
    assert!(settings.gzip && settings.brotli);
    assert_eq!(settings.redirect, RedirectPolicy::Limited(10));

    let client: HttpClient =
        HttpClient::new(HttpClientConfig::builder().gzip(false).follow_redirects(false).build());
    let settings = client.transport_settings();
    assert!(!settings.gzip && settings.brotli);
    assert_eq!(settings.redirect, RedirectPolicy::Never);
}

#[test]
fn a_circuit_breaker_exists_where_one_is_configured() {
    let client: HttpClient = HttpClient::default_client();
    assert!(client.new_circuit_breaker().is_none());
    let client: HttpClient = HttpClient::new(
        HttpClientConfig::builder()
            .circuit_breaker(CircuitBreakerConfig::new(1, Duration::from_secs(5)))
            .build(),
    );
    let mut breaker = client.new_circuit_breaker().expect("configured");
    assert_eq!(breaker.state(), CircuitState::Closed);
    breaker.record_failure();
    assert_eq!(breaker.state(), CircuitState::Open);
}

#[test]
fn interceptors_are_kept_in_order() {
    let client: HttpClient<u8, char, &str> = HttpClient::default_client();
    let client = client
        .with_interceptor(1)
        .with_shared_interceptor(2)
        .with_request_interceptor('a')
        .with_request_interceptor('b')
        .with_response_interceptor("x");
    let copy = client.clone();
    for c in [&client, &copy] {
        assert_eq!(c.interceptors(), &vec![1, 2]);
        assert_eq!(c.request_interceptors(), &vec!['a', 'b']);
        assert_eq!(c.response_interceptors(), &vec!["x"]);
    }
}
