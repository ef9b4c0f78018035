use armature_http_client::{HttpClientError, TransportError};
use std::time::Duration;

fn transport(timeout: bool, connect: bool, status: Option<u16>) -> HttpClientError {
    HttpClientError::Http(TransportError {
        message: "connection reset".to_string(),
        timeout,
        connect,
        status,
    })
}

#[test]
fn every_error_says_what_happened() {
    let cases = vec![
        (
            HttpClientError::RetryExhausted { attempts: 12, message: "gone".to_string() },
            "Request failed after 12 attempts: gone",
        ),
        (HttpClientError::CircuitOpen, "Circuit breaker is open, request rejected"),
        (HttpClientError::Timeout(Duration::from_millis(1500)), "Request timed out after 1.5s"),
        (HttpClientError::Connection("refused".to_string()), "Connection error: refused"),
        (HttpClientError::InvalidUrl("empty host".to_string()), "Invalid URL: empty host"),
        (HttpClientError::RequestBuild("no".to_string()), "Failed to build request: no"),
        (
            HttpClientError::Response { status: 503, message: "busy".to_string() },
            "Response error: 503 - busy",
        ),
        (HttpClientError::Json("eof".to_string()), "JSON error: eof"),
        (HttpClientError::Interceptor("denied".to_string()), "Interceptor error: denied"),
        (
            HttpClientError::StreamingBodyNotRetryable,
            "streaming body set by interceptor is not retry-safe: the body cannot be \
             buffered/replayed for retry attempts (disable retries or have the interceptor set a \
             buffered body)",
        ),
        (transport(false, false, None), "HTTP error: connection reset"),
        (
            HttpClientError::UrlParse(url::ParseError::EmptyHost),
            "URL parse error: empty host",
        ),
        (HttpClientError::Io("broken pipe".to_string()), "I/O error: broken pipe"),
        (HttpClientError::RetryExhausted { attempts: 0, message: String::new() },
            "Request failed after 0 attempts: "),
    ];
    for (error, text) in cases {
        assert_eq!(error.message(), text);
    }
}

#[test]
fn retryable_errors() {
    assert!(HttpClientError::Timeout(Duration::from_secs(1)).is_retryable());
    assert!(HttpClientError::Connection("x".to_string()).is_retryable());
    assert!(transport(true, false, None).is_retryable());
    assert!(transport(false, true, None).is_retryable());
    assert!(!transport(false, false, Some(503)).is_retryable());
    for (status, retryable) in [(429, true), (500, true), (599, true), (499, false), (408, false)] {
        let error = HttpClientError::Response { status, message: String::new() };
        assert_eq!(error.is_retryable(), retryable, "status {status}");
    }
    assert!(!HttpClientError::CircuitOpen.is_retryable());
    assert!(!HttpClientError::StreamingBodyNotRetryable.is_retryable());
}

#[test]
fn kinds_of_errors() {
    assert!(HttpClientError::Timeout(Duration::from_secs(1)).is_timeout());
    assert!(transport(true, false, None).is_timeout());
    assert!(!transport(false, true, None).is_timeout());
    assert!(HttpClientError::Connection("x".to_string()).is_connection());
    assert!(transport(false, true, None).is_connection());
    assert!(!HttpClientError::Timeout(Duration::from_secs(1)).is_connection());
    let response = HttpClientError::Response { status: 404, message: String::new() };
    assert_eq!(response.status_code(), Some(404));
    assert_eq!(transport(false, false, Some(502)).status_code(), Some(502));
    assert_eq!(HttpClientError::CircuitOpen.status_code(), None);
}
