use armature_http_client::{
    AuthInterceptor, HttpClientError, LoggingInterceptor, RateLimitInterceptor, Request, Response,
};
use bytes::Bytes;
use http::header::{HeaderMap, HeaderName, HeaderValue};
use http::{Method, StatusCode};
use std::time::Duration;
use url::Url;

fn dummy_request() -> Request {
    Request {
        method: Method::GET,
        url: Url::parse("https://example.com/").expect("valid"),
        headers: HeaderMap::new(),
        body: Some(b"kept".to_vec()),
        timeout: Some(Duration::from_secs(3)),
    }
}

/// A bearer token containing a byte that is invalid in an HTTP header
/// value (an embedded newline) must produce an `Err`, not a panic.
#[test]
fn bearer_token_with_newline_returns_err_not_panic() {
    let interceptor = AuthInterceptor::bearer("good\ntoken");
    let result = interceptor.intercept(dummy_request());
    assert!(
        matches!(result, Err(HttpClientError::Interceptor(_))),
        "malformed bearer token should return Interceptor error, got: {result:?}"
    );
}

/// An API key header name / value with an embedded newline must also
/// return an `Err` rather than panicking.
#[test]
fn api_key_with_newline_returns_err_not_panic() {
    let bad_name = AuthInterceptor::api_key("X-Api\nKey", "value");
    assert!(
        matches!(
            bad_name.intercept(dummy_request()),
            Err(HttpClientError::Interceptor(_))
        ),
        "malformed API key header name should return an error"
    );

    let bad_value = AuthInterceptor::api_key("X-Api-Key", "bad\nvalue");
    assert!(
        matches!(
            bad_value.intercept(dummy_request()),
            Err(HttpClientError::Interceptor(_))
        ),
        "malformed API key value should return an error"
    );
}

fn refusal(interceptor: AuthInterceptor) -> String {
    match interceptor.intercept(dummy_request()) {
        Err(HttpClientError::Interceptor(message)) => message,
        other => panic!("expected a refusal, got {other:?}"),
    }
}

#[test]
fn refusals_say_why() {
    assert_eq!(
        refusal(AuthInterceptor::bearer("a\rb")),
        "bearer token contains characters that are not valid in an HTTP header value"
    );
    assert_eq!(
        refusal(AuthInterceptor::api_key("X Key\n", "bad\nvalue")),
        "API key header name \"X Key\\n\" is not a valid HTTP header name"
    );
    assert_eq!(
        refusal(AuthInterceptor::api_key("X-Key", "bad\0value")),
        "API key contains characters that are not valid in an HTTP header value"
    );
    assert_eq!(
        refusal(AuthInterceptor::api_key("", "value")),
        "API key header name \"\" is not a valid HTTP header name"
    );
}

#[test]
fn credentials_are_added_and_the_rest_is_kept() {
    let mut request = dummy_request();
    request.headers.insert(HeaderName::from_static("x-a"), HeaderValue::from_static("1"));
    request.headers.append(HeaderName::from_static("authorization"), HeaderValue::from_static("old"));
    let request = AuthInterceptor::bearer("abc").intercept(request).expect("sendable");
    let values: Vec<&[u8]> =
        request.headers.get_all("authorization").iter().map(|v| v.as_bytes()).collect();
    assert_eq!(values, vec![&b"Bearer abc"[..]]);
    assert_eq!(request.headers.get("x-a").map(|v| v.as_bytes()), Some(&b"1"[..]));
    assert_eq!(request.method, Method::GET);
    assert_eq!(request.url.as_str(), "https://example.com/");
    assert_eq!(request.body, Some(b"kept".to_vec()));
    assert_eq!(request.timeout, Some(Duration::from_secs(3)));

    let request = AuthInterceptor::basic("Aladdin", "open sesame")
        .intercept(dummy_request())
        .expect("always sendable");
    assert_eq!(
        request.headers.get("authorization").map(|v| v.as_bytes()),
        Some(&b"Basic QWxhZGRpbjpvcGVuIHNlc2FtZQ=="[..])
    );

    let request =
        AuthInterceptor::api_key("X-Api-Key", "s3cret").intercept(dummy_request()).expect("sendable");
    assert_eq!(request.headers.get("x-api-key").map(|v| v.as_bytes()), Some(&b"s3cret"[..]));
}

#[test]
fn a_request_without_room_for_credentials_is_an_error() {
    let mut request = dummy_request();
    for i in 0..24576 {
        let name = HeaderName::from_bytes(format!("x-{i}").as_bytes()).expect("token");
        request.headers.insert(name, HeaderValue::from_static("v"));
    }
    assert!(matches!(
        AuthInterceptor::bearer("abc").intercept(request),
        Err(HttpClientError::Interceptor(m)) if m == "request has too many headers"
    ));
}

#[test]
fn basic_credentials_are_never_refused() {
    for (user, password) in [("a\nb", "c\rd"), ("", ""), ("\u{1F600}", "\0")] {
        assert!(AuthInterceptor::basic(user, password).intercept(dummy_request()).is_ok());
    }
}

#[test]
fn logging_options() {
    let plain = LoggingInterceptor::new();
    assert!(!plain.logs_headers() && !plain.logs_body());
    let headers = LoggingInterceptor::default().with_headers();
    assert!(headers.logs_headers() && !headers.logs_body());
    let body = LoggingInterceptor::new().with_body();
    assert!(!body.logs_headers() && body.logs_body());
}

fn limited(status: u16, retry_after: Option<&[u8]>) -> Response {
    let mut headers = HeaderMap::new();
    if let Some(value) = retry_after {
        headers.insert(
            HeaderName::from_static("retry-after"),
            HeaderValue::from_bytes(value).expect("value"),
        );
    }
    Response::from_parts(
        StatusCode::from_u16(status).expect("three digits"),
        headers,
        Bytes::new(),
        Url::parse("http://localhost/").expect("valid"),
    )
}

#[test]
fn a_rate_limited_response_is_held_back() {
    let interceptor = RateLimitInterceptor::new();
    let wait = |status, value| interceptor.wait_before_return(&limited(status, value));
    assert_eq!(wait(429, Some(&b"1"[..])), Some(Duration::from_secs(1)));
    assert_eq!(wait(429, Some(&b"0"[..])), Some(Duration::ZERO));
    assert_eq!(wait(429, Some(&b"60"[..])), Some(Duration::from_secs(60)));
    assert_eq!(wait(429, Some(&b"61"[..])), Some(Duration::from_secs(60)));
    assert_eq!(wait(429, Some(&b"18446744073709551615"[..])), Some(Duration::from_secs(60)));
    assert_eq!(wait(429, Some(&b"18446744073709551616"[..])), None);
    assert_eq!(wait(429, Some(&b"Wed, 21 Oct 2015 07:28:00 GMT"[..])), None);
    assert_eq!(wait(429, Some(&b"\xff"[..])), None);
    assert_eq!(wait(429, None), None);
    assert_eq!(wait(503, Some(&b"1"[..])), None);
    let short = RateLimitInterceptor::with_max_wait(Duration::from_millis(20));
    assert_eq!(
        short.wait_before_return(&limited(429, Some(b"3"))),
        Some(Duration::from_millis(20))
    );
    assert_eq!(
        RateLimitInterceptor::default().wait_before_return(&limited(429, Some(b"90"))),
        Some(Duration::from_secs(60))
    );
}
