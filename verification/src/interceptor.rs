//! Request and response interceptors.

use crate::clock::shorter;
use crate::error::HttpClientError;
use crate::header::{set_header, Setting};
use crate::request::{basic_authorization, bearer_authorization, Request, RequestView};
use crate::response::{Response, ResponseView};
use crate::text::{parse_u64, quoted};
use std::time::Duration;
use vstd::prelude::*;
use vstd::utf8::*;

verus! {

/// Logging interceptor that logs requests and responses.
#[derive(Debug, Clone, Copy)]
pub struct LoggingInterceptor {
    log_headers: bool,
    log_body: bool,
}

impl LoggingInterceptor {
    /// Headers are logged.
    pub closed spec fn headers_on(self) -> bool {
        self.log_headers
    }

    /// Bodies are logged.
    pub closed spec fn body_on(self) -> bool {
        self.log_body
    }

    /// Create a new logging interceptor.
    pub fn new() -> (r: Self)
        ensures
            !r.headers_on(),
            !r.body_on(),
    {
        LoggingInterceptor { log_headers: false, log_body: false }
    }

    /// Enable logging of headers.
    pub fn with_headers(self) -> (r: Self)
        ensures
            r.headers_on(),
            r.body_on() == self.body_on(),
    {
        LoggingInterceptor { log_headers: true, ..self }
    }

    /// Enable logging of body.
    pub fn with_body(self) -> (r: Self)
        ensures
            r.headers_on() == self.headers_on(),
            r.body_on(),
    {
        LoggingInterceptor { log_body: true, ..self }
    }

    /// Check if headers are logged.
    pub fn logs_headers(&self) -> (r: bool)
        ensures
            r == self.headers_on(),
    {
        self.log_headers
    }

    /// Check if bodies are logged.
    pub fn logs_body(&self) -> (r: bool)
        ensures
            r == self.body_on(),
    {
        self.log_body
    }
}

impl Default for LoggingInterceptor {
    fn default() -> (r: Self)
        ensures
            !r.headers_on(),
            !r.body_on(),
    {
        LoggingInterceptor::new()
    }
}

/// The credentials that an interceptor adds.
pub enum AuthView {
    Bearer(Seq<char>),
    Basic { username: Seq<char>, password: Seq<char> },
    ApiKey { header: Seq<char>, key: Seq<char> },
}

impl AuthView {
    /// The name of the header that is set.
    pub open spec fn header_name(self) -> Seq<char> {
        match self {
            AuthView::ApiKey { header, .. } => header,
            _ => "authorization"@,
        }
    }

    /// The value that the header is set to.
    pub open spec fn header_value(self) -> Seq<char> {
        match self {
            AuthView::Bearer(token) => crate::request::bearer_value(token),
            AuthView::Basic { username, password } => crate::request::basic_value(
                username,
                password,
            ),
            AuthView::ApiKey { key, .. } => key,
        }
    }

    /// Why the credentials cannot be sent, if they cannot. Basic credentials
    /// always can: they are encoded.
    pub open spec fn refusal(self) -> Option<Seq<char>> {
        match self {
            AuthView::Bearer(_) => if crate::header::valid_header_value(
                encode_utf8(self.header_value()),
            ) {
                None
            } else {
                Some(
                    "bearer token contains characters that are not valid in an HTTP header value"@,
                )
            },
            AuthView::Basic { .. } => None,
            AuthView::ApiKey { header, key } => if !crate::header::valid_header_name(header) {
                Some(
                    "API key header name "@ + crate::text::quoted_text(header)
                        + " is not a valid HTTP header name"@,
                )
            } else if !crate::header::valid_header_value(encode_utf8(key)) {
                Some("API key contains characters that are not valid in an HTTP header value"@)
            } else {
                None
            },
        }
    }
}

#[derive(Debug)]
enum AuthType {
    Bearer(String),
    Basic { username: String, password: String },
    ApiKey { header: String, key: String },
}

/// Authentication interceptor that adds auth headers.
#[derive(Debug)]
pub struct AuthInterceptor {
    auth_type: AuthType,
}

impl View for AuthInterceptor {
    type V = AuthView;

    closed spec fn view(&self) -> AuthView {
        match self.auth_type {
            AuthType::Bearer(token) => AuthView::Bearer(token@),
            AuthType::Basic { username, password } => AuthView::Basic {
                username: username@,
                password: password@,
            },
            AuthType::ApiKey { header, key } => AuthView::ApiKey { header: header@, key: key@ },
        }
    }
}

impl AuthInterceptor {
    /// Create a bearer token interceptor.
    pub fn bearer(token: &str) -> (r: Self)
        ensures
            r@ == AuthView::Bearer(token@),
    {
        AuthInterceptor { auth_type: AuthType::Bearer(token.to_string()) }
    }

    /// Create a basic auth interceptor.
    pub fn basic(username: &str, password: &str) -> (r: Self)
        ensures
            r@ == (AuthView::Basic { username: username@, password: password@ }),
    {
        AuthInterceptor {
            auth_type: AuthType::Basic {
                username: username.to_string(),
                password: password.to_string(),
            },
        }
    }

    /// Create an API key interceptor.
    pub fn api_key(header: &str, key: &str) -> (r: Self)
        ensures
            r@ == (AuthView::ApiKey { header: header@, key: key@ }),
    {
        AuthInterceptor {
            auth_type: AuthType::ApiKey { header: header.to_string(), key: key.to_string() },
        }
    }

    /// Add the credentials to the request. Credentials that cannot be sent are
    /// an error, and so is a request whose header map does not take one more.
    pub fn intercept(&self, request: Request) -> (r: Result<Request, HttpClientError>)
        ensures
            match self@.refusal() {
                Some(reason) => r matches Err(HttpClientError::Interceptor(message)) && message@
                    == reason,
                None => match r {
                    Ok(authorized) => authorized@ == (RequestView {
                        headers: crate::header::with_header(
                            request@.headers,
                            self@.header_name(),
                            self@.header_value(),
                        ),
                        ..request@
                    }),
                    Err(HttpClientError::Interceptor(message)) => {
                        &&& !crate::header::has_room(request@.headers)
                        &&& message@ == "request has too many headers"@
                    },
                    Err(_) => false,
                },
            },
    {
        let mut headers = request.headers;
        proof {
            lemma_authorization_is_a_name();
        }
        let outcome = match &self.auth_type {
            AuthType::Bearer(token) => {
                let value = bearer_authorization(token.as_str());
                set_header(&mut headers, "authorization", value.as_str())
            },
            AuthType::Basic { username, password } => {
                let value = basic_authorization(username.as_str(), password.as_str());
                set_header(&mut headers, "authorization", value.as_str())
            },
            AuthType::ApiKey { header, key } => {
                set_header(&mut headers, header.as_str(), key.as_str())
            },
        };
        match outcome {
            Setting::Done => Ok(Request { headers, ..request }),
            Setting::Malformed => Err(HttpClientError::Interceptor(self.refusal_message())),
            Setting::Full => Err(
                HttpClientError::Interceptor("request has too many headers".to_string()),
            ),
        }
    }

    /// Why the credentials cannot be sent.
    fn refusal_message(&self) -> (r: String)
        requires
            self@.refusal() is Some,
        ensures
            self@.refusal() == Some(r@),
    {
        match &self.auth_type {
            AuthType::Bearer(_) => {
                "bearer token contains characters that are not valid in an HTTP header value".to_string()
            },
            AuthType::Basic { .. } => vstd::pervasive::unreached(),
            AuthType::ApiKey { header, key } => refused_api_key(header.as_str(), key.as_str()),
        }
    }
}

/// Why an API key cannot be sent.
fn refused_api_key(header: &str, key: &str) -> (r: String)
    requires
        !crate::header::well_formed_header(header@, key@),
    ensures
        (AuthView::ApiKey { header: header@, key: key@ }).refusal() == Some(r@),
{
    match crate::header::header_name(header) {
        Some(_) => {
            "API key contains characters that are not valid in an HTTP header value".to_string()
        },
        None => {
            let mut message = String::new();
            message.append("API key header name ");
            message.append(quoted(header).as_str());
            message.append(" is not a valid HTTP header name");
            assert(message@ =~= "API key header name "@ + crate::text::quoted_text(header@)
                + " is not a valid HTTP header name"@);
            message
        },
    }
}

proof fn lemma_authorization_is_a_name()
    ensures
        crate::header::valid_header_name("authorization"@),
{
    reveal_strlit("authorization");
}

impl ResponseView {
    /// How many seconds the response asks to wait: the number in its
    /// `Retry-After` header, if that is a number.
    pub open spec fn retry_after_seconds(self) -> Option<u64> {
        match self.header("retry-after"@) {
            Some(text) => crate::text::parsed_u64(text),
            None => None,
        }
    }
}

/// Retry-After header interceptor that respects rate limiting.
///
/// When a response is a `429 Too Many Requests` carrying a numeric
/// `Retry-After` header (seconds), the response is to be held back for that
/// duration, so that a caller simply retrying immediately afterwards will not
/// hammer the upstream service. The duration is capped by `max_wait`, to avoid
/// a hostile/misconfigured server stalling the caller indefinitely.
#[derive(Debug, Clone, Copy)]
pub struct RateLimitInterceptor {
    max_wait: Duration,
}

impl RateLimitInterceptor {
    /// The longest time that a response is held back.
    pub closed spec fn cap(self) -> Duration {
        self.max_wait
    }

    /// Create a new rate-limit interceptor with a default max wait of 60s.
    pub fn new() -> (r: Self)
        ensures
            crate::retry::is_seconds(r.cap(), 60),
    {
        RateLimitInterceptor { max_wait: Duration::from_secs(60) }
    }

    /// Create a rate-limit interceptor with a custom cap on how long it will
    /// ever wait, regardless of what `Retry-After` requests.
    pub fn with_max_wait(max_wait: Duration) -> (r: Self)
        ensures
            r.cap() == max_wait,
    {
        RateLimitInterceptor { max_wait }
    }

    /// How long the response is to be held back, if at all.
    pub fn wait_before_return(&self, response: &Response) -> (r: Option<Duration>)
        ensures
            r is Some <==> response@.status == 429 && response@.retry_after_seconds() is Some,
            r is Some ==> crate::clock::duration_nanos(r->0) == crate::clock::least(
                response@.retry_after_seconds()->0 * crate::clock::nanos_per_second(),
                crate::clock::duration_nanos(self.cap()) as int,
            ),
    {
        if response.status().as_u16() != 429 {
            return None;
        }
        let seconds = match response.header("retry-after") {
            Some(text) => parse_u64(text),
            None => None,
        };
        match seconds {
            Some(n) => Some(shorter(Duration::from_secs(n), self.max_wait)),
            None => None,
        }
    }
}

impl Default for RateLimitInterceptor {
    fn default() -> (r: Self)
        ensures
            crate::retry::is_seconds(r.cap(), 60),
    {
        RateLimitInterceptor::new()
    }
}

} // verus!
