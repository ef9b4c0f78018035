use armature_http_client::{
    Action, Body, CircuitBreaker, CircuitBreakerConfig, CircuitState, Delay, Event, HttpClient,
    HttpClientConfig, HttpClientError, Outgoing, Phase, RateLimitInterceptor, Request,
    RequestHook, RequestParts, RequestSpec, Response, ResponseHook, RetryConfig, TransportError,
};
use bytes::Bytes;
use http::header::{HeaderMap, HeaderName, HeaderValue};
use http::StatusCode;
use std::time::{Duration, Instant};
use url::Url;

/// A request that interceptors have worked on.
#[derive(Debug)]
struct Changed {
    request: Request,
    streaming: bool,
}

impl Changed {
    fn new(outgoing: Outgoing<Changed>) -> Changed {
        match outgoing {
            Outgoing::Fresh(request) => Changed { request, streaming: false },
            Outgoing::Intercepted(changed) => changed,
        }
    }

    fn parts(&self) -> RequestParts {
        RequestParts {
            method: self.request.method.clone(),
            url: self.request.url.clone(),
            headers: self.request.headers.clone(),
            body: match &self.request.body {
                _ if self.streaming => Body::Streaming,
                Some(bytes) => Body::Buffered(bytes.clone()),
                None => Body::Absent,
            },
        }
    }
}

/// What a request interceptor does.
#[derive(Debug, Clone, Copy, PartialEq)]
enum OnRequest {
    Nothing,
    Rewrite(&'static [u8]),
    Stream,
    Tag(&'static str),
    Fail,
}

/// What a response interceptor does.
#[derive(Debug, Clone, Copy, PartialEq)]
enum OnResponse {
    Nothing,
    Fail,
}

type Client = HttpClient<(OnRequest, OnResponse), OnRequest, OnResponse>;

fn client(config: HttpClientConfig) -> Client {
    HttpClient::new(config)
}

fn spec_of(client: &Client, url: &str, body: Option<&[u8]>) -> RequestSpec {
    let mut builder = client.post(url).timeout(Duration::from_secs(9));
    if let Some(bytes) = body {
        builder = builder.body(bytes.to_vec());
    }
    builder.prepare().expect("within limits").expect("valid URL").spec
}

fn reply(status: u16) -> Result<Response, HttpClientError> {
    Ok(Response::from_parts(
        StatusCode::from_u16(status).expect("three digits"),
        HeaderMap::new(),
        Bytes::from_static(b"ok"),
        Url::parse("http://localhost/").expect("valid"),
    ))
}

fn broken(timeout: bool, connect: bool) -> Result<Response, HttpClientError> {
    Err(HttpClientError::Http(TransportError {
        message: "broken".to_string(),
        timeout,
        connect,
        status: None,
    }))
}

/// What happened while a request was carried out.
#[derive(Debug, Default)]
struct Trace {
    request_hooks: Vec<RequestHook>,
    response_hooks: Vec<ResponseHook>,
    sent: Vec<Request>,
    waits: Vec<(u32, Duration)>,
}

fn change(what: OnRequest, outgoing: Outgoing<Changed>) -> Result<Changed, HttpClientError> {
    let mut changed = Changed::new(outgoing);
    match what {
        OnRequest::Nothing => {}
        OnRequest::Rewrite(body) => changed.request.body = Some(body.to_vec()),
        OnRequest::Stream => changed.streaming = true,
        OnRequest::Tag(tag) => {
            changed.request.headers.append(
                HeaderName::from_static("x-tag"),
                HeaderValue::from_static(tag),
            );
        }
        OnRequest::Fail => return Err(HttpClientError::Interceptor("no request".to_string())),
    }
    Ok(changed)
}

/// Carries a request out, with `replies` for the outcome of each attempt and the
/// clock standing still but for `tick` between two actions.
fn run_at(
    client: &Client,
    spec: RequestSpec,
    breaker: &mut Option<CircuitBreaker>,
    replies: Vec<Result<Response, HttpClientError>>,
    start: Instant,
    tick: Duration,
) -> (Result<Response, HttpClientError>, Trace) {
    let mut trace = Trace::default();
    let mut replies = replies.into_iter();
    let mut now = start;
    let (mut execution, mut action) = client.execute_at::<Changed>(spec, breaker, now, now);
    loop {
        now += tick;
        let event = match action {
            Action::InterceptRequest { hook, request } => {
                assert_eq!(execution.phase(), Phase::InterceptingRequest(hook));
                trace.request_hooks.push(hook);
                let what = match hook {
                    RequestHook::Interceptor(i) => client.interceptors()[i].0,
                    RequestHook::RequestInterceptor(i) => client.request_interceptors()[i],
                };
                Event::RequestIntercepted(change(what, request))
            }
            Action::Describe(changed) => {
                let parts = changed.parts();
                Event::Described(changed, parts)
            }
            Action::Send(outgoing) => {
                trace.sent.push(Changed::new(outgoing).request);
                Event::Sent(replies.next().expect("no more attempts"))
            }
            Action::Backoff { attempt, delay } => {
                match delay {
                    Delay::Fixed(d) => trace.waits.push((attempt, d)),
                    Delay::Scaled(s) => panic!("nothing to scale, got {s:?}"),
                }
                Event::BackoffOver
            }
            Action::InterceptResponse { hook, response } => {
                trace.response_hooks.push(hook);
                let what = match hook {
                    ResponseHook::Interceptor(i) => client.interceptors()[i].1,
                    ResponseHook::ResponseInterceptor(i) => client.response_interceptors()[i],
                };
                Event::ResponseIntercepted(match what {
                    OnResponse::Nothing => Ok(response),
                    OnResponse::Fail => Err(HttpClientError::Interceptor("no response".to_string())),
                })
            }
            Action::Finish(result) => {
                assert_eq!(execution.phase(), Phase::Finished);
                assert!(replies.next().is_none(), "an attempt is missing");
                return (result, trace);
            }
        };
        action = execution.advance_at(breaker, event, now, now);
    }
}

fn run(
    client: &Client,
    spec: RequestSpec,
    breaker: &mut Option<CircuitBreaker>,
    replies: Vec<Result<Response, HttpClientError>>,
) -> (Result<Response, HttpClientError>, Trace) {
    run_at(client, spec, breaker, replies, Instant::now(), Duration::ZERO)
}

fn retrying(retry: RetryConfig) -> HttpClientConfig {
    HttpClientConfig::builder().retry(retry).build()
}

/// A streaming body installed by an interceptor cannot be replayed, so
/// when retries are configured the request must be rejected loudly rather
/// than silently sending an empty body on retry attempts.
#[test]
fn streaming_interceptor_body_with_retries_is_rejected() {
    let client = client(retrying(RetryConfig::constant(3, Duration::from_millis(1))))
        .with_request_interceptor(OnRequest::Stream);
    let spec = spec_of(&client, "http://127.0.0.1:0/", Some(b"original"));

    let (result, trace) = run(&client, spec, &mut None, vec![]);

    assert!(
        matches!(result, Err(HttpClientError::StreamingBodyNotRetryable)),
        "expected StreamingBodyNotRetryable, got {result:?}"
    );
    assert!(trace.sent.is_empty());
}

/// A streaming body installed by an interceptor is fine when retries are
/// NOT configured: it is sent exactly once, so the guard must not trip.
#[test]
fn streaming_interceptor_body_without_retries_is_allowed() {
    let client =
        client(HttpClientConfig::default()).with_request_interceptor(OnRequest::Stream);
    let spec = spec_of(&client, "http://127.0.0.1:0/", Some(b"original"));

    let (result, trace) = run(&client, spec, &mut None, vec![broken(false, true)]);

    assert!(
        !matches!(result, Err(HttpClientError::StreamingBodyNotRetryable)),
        "streaming body must be allowed without retries, got {result:?}"
    );
    assert_eq!(trace.sent.len(), 1);
}

#[test]
fn streaming_is_allowed_where_one_attempt_is_all_there_is() {
    for attempts in [0, 1] {
        let client = client(retrying(RetryConfig::immediate(attempts)))
            .with_interceptor((OnRequest::Stream, OnResponse::Nothing));
        let spec = spec_of(&client, "http://localhost/", None);
        let (result, trace) = run(&client, spec, &mut None, vec![reply(200)]);
        assert!(result.is_ok());
        assert_eq!(trace.sent.len(), 1);
    }
}

/// A payload whose fields are written out in order.
struct Payload {
    item: &'static str,
    quantity: u32,
}

impl serde::Serialize for Payload {
    fn serialize<S: serde::Serializer>(&self, serializer: S) -> Result<S::Ok, S::Error> {
        let mut fields = serde::Serializer::serialize_struct(serializer, "Payload", 2)?;
        serde::ser::SerializeStruct::serialize_field(&mut fields, "item", self.item)?;
        serde::ser::SerializeStruct::serialize_field(&mut fields, "quantity", &self.quantity)?;
        serde::ser::SerializeStruct::end(fields)
    }
}

/// Retried requests must carry the original body, and the original
/// per-request timeout likewise.
#[test]
fn retried_request_carries_original_body() {
    let client = client(retrying(RetryConfig::immediate(5)));

    let encoded = serde_json::to_vec(&Payload {
        item: "widget",
        quantity: 5,
    })
    .map_err(|e| e.to_string());
    let spec = client
        .post("http://localhost/")
        .timeout(Duration::from_secs(4))
        .json(encoded)
        .expect("serialize")
        .prepare()
        .expect("within limits")
        .expect("valid URL")
        .spec;

    // Fail twice, succeed on the third attempt.
    let (result, trace) =
        run(&client, spec, &mut None, vec![reply(500), reply(500), reply(200)]);

    let response = result.expect("request should eventually succeed");
    assert_eq!(response.status(), StatusCode::OK);
    assert_eq!(
        trace.sent.len(),
        3,
        "expected exactly 3 attempts (2 failures + success)"
    );
    let mut expected = serde_json::Map::new();
    expected.insert("item".to_string(), serde_json::Value::from("widget"));
    expected.insert("quantity".to_string(), serde_json::Value::from(5));
    let expected = serde_json::to_vec(&serde_json::Value::Object(expected)).expect("serialize");
    for (i, request) in trace.sent.iter().enumerate() {
        assert_eq!(
            request.body.as_ref(),
            Some(&expected),
            "attempt {i} was sent with the wrong body"
        );
        assert!(!expected.is_empty(), "attempt {i} had an empty body");
        assert_eq!(request.timeout, Some(Duration::from_secs(4)));
        assert_eq!(
            request.headers.get("content-type").map(|v| v.as_bytes()),
            Some(&b"application/json"[..])
        );
    }
}

/// The circuit breaker must open on a run of failing HTTP status
/// responses (5xx), not just transport-level errors.
#[test]
fn circuit_breaker_opens_on_repeated_5xx_status() {
    let config = HttpClientConfig::builder()
        .circuit_breaker(CircuitBreakerConfig::new(3, Duration::from_secs(30)))
        .build();
    let client = client(config);
    let mut breaker = client.new_circuit_breaker();

    // The first 3 requests go through, with a 503 response rather than an error.
    for i in 0..3 {
        let spec = spec_of(&client, "http://localhost/", None);
        let (result, trace) = run(&client, spec, &mut breaker, vec![reply(503)]);
        let response =
            result.unwrap_or_else(|e| panic!("request {i} should not error: {}", e.message()));
        assert_eq!(response.status(), StatusCode::SERVICE_UNAVAILABLE);
        assert_eq!(trace.sent.len(), 1);
    }

    // The breaker is now open: the next call short-circuits with CircuitOpen.
    let spec = spec_of(&client, "http://localhost/", None);
    let (result, trace) = run(&client, spec, &mut breaker, vec![]);
    match result {
        Err(HttpClientError::CircuitOpen) => {}
        other => panic!("expected CircuitOpen after 3 failing statuses, got {other:?}"),
    }
    assert!(trace.sent.is_empty());
}

/// Registered interceptors must actually run around an execution.
#[test]
fn registered_interceptor_runs_on_execute() {
    let client = client(HttpClientConfig::default())
        .with_interceptor((OnRequest::Nothing, OnResponse::Nothing));
    let spec = spec_of(&client, "http://localhost/", None);

    let (result, trace) = run(&client, spec, &mut None, vec![reply(200)]);

    assert_eq!(result.expect("answered").status(), StatusCode::OK);
    assert_eq!(trace.request_hooks.len(), 1, "request interceptor did not run");
    assert_eq!(trace.response_hooks.len(), 1, "response interceptor did not run");
}

/// `RateLimitInterceptor` must actually delay for the parsed `Retry-After`
/// duration: the wait it asks for is the one that the header gives.
#[test]
fn rate_limit_interceptor_actually_delays() {
    let mut headers = HeaderMap::new();
    headers.insert(HeaderName::from_static("retry-after"), HeaderValue::from_static("1"));
    let response = Response::from_parts(
        StatusCode::TOO_MANY_REQUESTS,
        headers,
        Bytes::new(),
        Url::parse("http://localhost/").expect("valid"),
    );
    let wait = RateLimitInterceptor::new().wait_before_return(&response);
    assert_eq!(response.status(), StatusCode::TOO_MANY_REQUESTS);
    assert!(
        wait >= Some(Duration::from_millis(900)),
        "expected the interceptor to delay ~1s for Retry-After, only {wait:?}"
    );
}

/// A body-read failure must surface as an error, not a silently empty 2xx
/// response.
#[test]
fn body_read_failure_is_not_a_silent_empty_success() {
    let client = client(HttpClientConfig::default());
    let spec = spec_of(&client, "http://localhost/", None);
    let (result, _) = run(&client, spec, &mut None, vec![broken(false, false)]);
    assert!(
        result.is_err(),
        "expected a body-read failure to surface as an error, got {result:?}"
    );
}

/// An interceptor-mutated body must be sent on every attempt, not just the first.
#[test]
fn interceptor_body_mutation_is_sent_on_every_retry_attempt() {
    let client = client(retrying(RetryConfig::immediate(3)))
        .with_interceptor((OnRequest::Rewrite(b"rewritten"), OnResponse::Nothing));
    let spec = spec_of(&client, "http://localhost/", Some(b"original"));

    let (result, trace) = run(&client, spec, &mut None, vec![reply(500), reply(200)]);

    assert_eq!(result.expect("answered").status(), StatusCode::OK);
    assert_eq!(trace.sent.len(), 2, "expected exactly 2 attempts");
    for (i, request) in trace.sent.iter().enumerate() {
        assert_eq!(
            request.body,
            Some(b"rewritten".to_vec()),
            "attempt {i} did not carry the interceptor's rewritten body"
        );
        assert_eq!(request.timeout, Some(Duration::from_secs(9)));
    }
}

#[test]
fn interceptors_run_in_order_and_once() {
    let client = client(retrying(RetryConfig::immediate(3)))
        .with_request_interceptor(OnRequest::Tag("three"))
        .with_interceptor((OnRequest::Tag("one"), OnResponse::Nothing))
        .with_interceptor((OnRequest::Tag("two"), OnResponse::Nothing))
        .with_response_interceptor(OnResponse::Nothing);
    let spec = spec_of(&client, "http://localhost/", None);
    let (result, trace) = run(&client, spec, &mut None, vec![reply(503), reply(200)]);
    assert!(result.is_ok());
    assert_eq!(
        trace.request_hooks,
        vec![
            RequestHook::Interceptor(0),
            RequestHook::Interceptor(1),
            RequestHook::RequestInterceptor(0),
        ]
    );
    assert_eq!(
        trace.response_hooks,
        vec![
            ResponseHook::Interceptor(0),
            ResponseHook::Interceptor(1),
            ResponseHook::ResponseInterceptor(0),
        ]
    );
    assert_eq!(trace.sent.len(), 2);
    for request in &trace.sent {
        let tags: Vec<&[u8]> =
            request.headers.get_all("x-tag").iter().map(|v| v.as_bytes()).collect();
        assert_eq!(tags, vec![&b"one"[..], &b"two"[..], &b"three"[..]]);
    }
}

#[test]
fn a_failing_request_interceptor_ends_it_all() {
    let client = client(HttpClientConfig::default())
        .with_interceptor((OnRequest::Fail, OnResponse::Nothing))
        .with_request_interceptor(OnRequest::Nothing);
    let spec = spec_of(&client, "http://localhost/", None);
    let (result, trace) = run(&client, spec, &mut None, vec![]);
    assert!(matches!(result, Err(HttpClientError::Interceptor(m)) if m == "no request"));
    assert_eq!(trace.request_hooks.len(), 1);
    assert!(trace.sent.is_empty());
}

#[test]
fn a_failing_response_interceptor_ends_it_all() {
    let client = client(HttpClientConfig::default())
        .with_interceptor((OnRequest::Nothing, OnResponse::Fail))
        .with_response_interceptor(OnResponse::Nothing);
    let spec = spec_of(&client, "http://localhost/", None);
    let (result, trace) = run(&client, spec, &mut None, vec![reply(200)]);
    assert!(matches!(result, Err(HttpClientError::Interceptor(m)) if m == "no response"));
    assert_eq!(trace.response_hooks, vec![ResponseHook::Interceptor(0)]);
}

#[test]
fn a_request_without_a_body_stays_without_one() {
    let client = client(retrying(RetryConfig::immediate(2)))
        .with_request_interceptor(OnRequest::Nothing);
    let spec = spec_of(&client, "http://localhost/", None);
    let (result, trace) = run(&client, spec, &mut None, vec![reply(500), reply(500)]);
    assert_eq!(result.expect("the last response").status(), StatusCode::INTERNAL_SERVER_ERROR);
    assert_eq!(trace.sent.len(), 2);
    assert!(trace.sent.iter().all(|r| r.body.is_none()));
}

#[test]
fn attempts_are_limited() {
    for (attempts, sent) in [(0, 1), (1, 1), (2, 2), (4, 4)] {
        let client = client(retrying(RetryConfig::immediate(attempts)));
        let spec = spec_of(&client, "http://localhost/", None);
        let replies = (0..sent).map(|_| broken(true, false)).collect();
        let (result, trace) = run(&client, spec, &mut None, replies);
        assert!(matches!(result, Err(HttpClientError::Http(e)) if e.timeout));
        assert_eq!(trace.sent.len(), sent);
    }
}

#[test]
fn waits_follow_the_backoff() {
    let client = client(retrying(RetryConfig::linear(4, Duration::from_millis(100))));
    let spec = spec_of(&client, "http://localhost/", None);
    let (result, trace) = run(
        &client,
        spec,
        &mut None,
        vec![reply(503), broken(false, true), reply(429), reply(204)],
    );
    assert_eq!(result.expect("answered").status(), StatusCode::NO_CONTENT);
    assert_eq!(
        trace.waits,
        vec![
            (1, Duration::from_millis(200)),
            (2, Duration::from_millis(300)),
            (3, Duration::from_millis(400)),
        ]
    );
}

#[test]
fn only_listed_statuses_and_errors_are_retried() {
    let client = client(retrying(RetryConfig::immediate(3)));
    for status in [200, 301, 404, 501] {
        let spec = spec_of(&client, "http://localhost/", None);
        let (result, trace) = run(&client, spec, &mut None, vec![reply(status)]);
        assert_eq!(result.expect("answered").status().as_u16(), status);
        assert_eq!(trace.sent.len(), 1);
    }
    let spec = spec_of(&client, "http://localhost/", None);
    let (result, trace) = run(&client, spec, &mut None, vec![broken(false, false)]);
    assert!(result.is_err());
    assert_eq!(trace.sent.len(), 1);
}

#[test]
fn without_retries_one_attempt_is_made() {
    let client = client(HttpClientConfig::default());
    let spec = spec_of(&client, "http://localhost/", None);
    let (result, trace) = run(&client, spec, &mut None, vec![reply(503)]);
    assert_eq!(result.expect("a response, not an error").status().as_u16(), 503);
    assert_eq!(trace.sent.len(), 1);
}

#[test]
fn time_for_retries_runs_out() {
    let retry = RetryConfig::immediate(9).with_max_retry_time(Duration::from_secs(5));
    let client = client(retrying(retry));
    let spec = spec_of(&client, "http://localhost/", None);
    // Two actions, of two seconds each, lie between two attempts.
    let (result, trace) = run_at(
        &client,
        spec,
        &mut None,
        vec![reply(503), broken(true, false)],
        Instant::now(),
        Duration::from_secs(2),
    );
    assert_eq!(trace.sent.len(), 2);
    match result {
        Err(HttpClientError::RetryExhausted { attempts, message }) => {
            assert_eq!(attempts, 2, "the number of attempts made");
            assert_eq!(message, "HTTP error: broken");
        }
        other => panic!("expected RetryExhausted, got {other:?}"),
    }
}

#[test]
fn the_reason_for_the_last_retry_is_told() {
    let retry = RetryConfig::immediate(9).with_max_retry_time(Duration::from_secs(1));
    let client = client(retrying(retry));
    let spec = spec_of(&client, "http://localhost/", None);
    let (result, _) = run_at(
        &client,
        spec,
        &mut None,
        vec![reply(503)],
        Instant::now(),
        Duration::from_secs(1),
    );
    assert!(matches!(
        result,
        Err(HttpClientError::RetryExhausted { attempts: 1, message })
            if message == "Response error: 503 - Retriable status code"
    ));
}

#[test]
fn no_time_at_all_means_no_attempt() {
    let retry = RetryConfig::immediate(3).with_max_retry_time(Duration::ZERO);
    let client = client(retrying(retry));
    let spec = spec_of(&client, "http://localhost/", None);
    let start = Instant::now();
    let (_, action) = client.execute_at::<Changed>(
        spec,
        &mut None,
        start,
        start + Duration::from_nanos(1),
    );
    assert!(matches!(
        action,
        Action::Finish(Err(HttpClientError::RetryExhausted { attempts: 0, message }))
            if message == "Unknown error"
    ));
}

#[test]
fn every_attempt_is_recorded_with_the_breaker() {
    let config = HttpClientConfig::builder()
        .retry(RetryConfig::immediate(3))
        .circuit_breaker(CircuitBreakerConfig::new(10, Duration::from_secs(30)))
        .build();
    let client = client(config);
    let mut breaker = client.new_circuit_breaker();
    let spec = spec_of(&client, "http://localhost/", None);
    let replies = vec![reply(503), broken(true, false), reply(429)];
    let (_, trace) = run(&client, spec, &mut breaker, replies);
    assert_eq!(trace.sent.len(), 3);
    assert_eq!(breaker.as_ref().map(|b| b.failure_count()), Some(3));
    let spec = spec_of(&client, "http://localhost/", None);
    let (_, _) = run(&client, spec, &mut breaker, vec![reply(404)]);
    assert_eq!(breaker.as_ref().map(|b| b.failure_count()), Some(0), "a 404 is no failure");
}

#[test]
fn a_recovering_service_closes_the_circuit() {
    let config = HttpClientConfig::builder()
        .circuit_breaker(
            CircuitBreakerConfig::new(1, Duration::from_secs(30)).with_success_threshold(1),
        )
        .build();
    let client = client(config);
    let mut breaker = client.new_circuit_breaker();
    let start = Instant::now();
    let zero = Duration::ZERO;
    let spec = spec_of(&client, "http://localhost/", None);
    let _ = run_at(&client, spec, &mut breaker, vec![reply(500)], start, zero);
    let later = start + Duration::from_secs(30);
    let spec = spec_of(&client, "http://localhost/", None);
    let (result, _) = run_at(&client, spec, &mut breaker, vec![reply(200)], later, zero);
    assert!(result.is_ok());
    let state = breaker.as_mut().map(|b| b.state_at(later));
    assert_eq!(state, Some(CircuitState::Closed));
}

#[test]
fn the_clock_is_read_where_it_is_not_given() {
    let client = client(HttpClientConfig::default());
    let spec = spec_of(&client, "http://localhost/", None);
    let mut breaker = None;
    let (mut execution, action) = client.execute::<Changed>(spec, &mut breaker);
    assert!(matches!(action, Action::Send(Outgoing::Fresh(_))));
    assert_eq!(execution.phase(), Phase::Sending);
    let action = execution.advance(&mut breaker, Event::Sent(reply(200)));
    assert!(matches!(action, Action::Finish(Ok(_))));
}
