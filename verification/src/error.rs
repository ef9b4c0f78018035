//! HTTP client error types.

use crate::text::{duration_debug, push_decimal};
use crate::wire::parse_error_string;
use std::time::Duration;
use vstd::prelude::*;

verus! {

/// What is known of a failure below HTTP: it was a timeout, the connection could
/// not be made, or a status came with it.
#[derive(Debug)]
pub struct TransportError {
    /// A description of the failure.
    pub message: String,
    /// The request ran out of time.
    pub timeout: bool,
    /// The connection could not be made.
    pub connect: bool,
    /// The status that came with the failure, if any.
    pub status: Option<u16>,
}

/// HTTP client errors.
#[derive(Debug)]
#[non_exhaustive]
pub enum HttpClientError {
    /// Request failed after all retries exhausted.
    RetryExhausted {
        /// Number of attempts made.
        attempts: u32,
        /// Last error message.
        message: String,
    },
    /// Circuit breaker is open, rejecting requests.
    CircuitOpen,
    /// Request timed out.
    Timeout(Duration),
    /// Connection error.
    Connection(String),
    /// Invalid URL.
    InvalidUrl(String),
    /// Request building error.
    RequestBuild(String),
    /// Response error.
    Response {
        /// HTTP status code.
        status: u16,
        /// Error message.
        message: String,
    },
    /// JSON serialization/deserialization error.
    Json(String),
    /// Interceptor error.
    Interceptor(String),
    /// A request interceptor installed a streaming (non-buffered) body that
    /// cannot be replayed, but retries are configured. Such a body would be
    /// consumed by the first attempt and silently sent empty on every retry,
    /// so the request is rejected instead of sending an incomplete request.
    StreamingBodyNotRetryable,
    /// Underlying transport error.
    Http(TransportError),
    /// URL parsing error.
    UrlParse(url::ParseError),
    /// I/O error, by its description.
    Io(String),
}

/// What is displayed of a streaming body that cannot be sent again.
pub open spec fn streaming_body_text() -> Seq<char> {
    "streaming body set by interceptor is not retry-safe: the body cannot be buffered/replayed for retry attempts (disable retries or have the interceptor set a buffered body)"@
}

impl HttpClientError {
    /// What the error displays as.
    pub open spec fn text(self) -> Seq<char> {
        match self {
            HttpClientError::RetryExhausted { attempts, message } => "Request failed after "@
                + crate::text::decimal(attempts as nat) + " attempts: "@ + message@,
            HttpClientError::CircuitOpen => "Circuit breaker is open, request rejected"@,
            HttpClientError::Timeout(d) => "Request timed out after "@
                + crate::text::duration_debug_text(crate::clock::duration_nanos(d)),
            HttpClientError::Connection(m) => "Connection error: "@ + m@,
            HttpClientError::InvalidUrl(m) => "Invalid URL: "@ + m@,
            HttpClientError::RequestBuild(m) => "Failed to build request: "@ + m@,
            HttpClientError::Response { status, message } => "Response error: "@
                + crate::text::decimal(status as nat) + " - "@ + message@,
            HttpClientError::Json(m) => "JSON error: "@ + m@,
            HttpClientError::Interceptor(m) => "Interceptor error: "@ + m@,
            HttpClientError::StreamingBodyNotRetryable => streaming_body_text(),
            HttpClientError::Http(e) => "HTTP error: "@ + e.message@,
            HttpClientError::UrlParse(e) => "URL parse error: "@ + crate::wire::parse_error_text(e),
            HttpClientError::Io(m) => "I/O error: "@ + m@,
        }
    }

    /// The error as displayed text.
    pub fn message(&self) -> (r: String)
        ensures
            r@ == self.text(),
    {
        let mut out = String::new();
        match self {
            HttpClientError::RetryExhausted { attempts, message } => {
                out.append("Request failed after ");
                push_decimal(&mut out, *attempts as u64);
                out.append(" attempts: ");
                out.append(message.as_str());
            },
            HttpClientError::CircuitOpen => {
                out.append("Circuit breaker is open, request rejected");
            },
            HttpClientError::Timeout(d) => {
                out.append("Request timed out after ");
                out.append(duration_debug(d).as_str());
            },
            HttpClientError::Connection(m) => {
                out.append("Connection error: ");
                out.append(m.as_str());
            },
            HttpClientError::InvalidUrl(m) => {
                out.append("Invalid URL: ");
                out.append(m.as_str());
            },
            HttpClientError::RequestBuild(m) => {
                out.append("Failed to build request: ");
                out.append(m.as_str());
            },
            HttpClientError::Response { status, message } => {
                out.append("Response error: ");
                push_decimal(&mut out, *status as u64);
                out.append(" - ");
                out.append(message.as_str());
            },
            HttpClientError::Json(m) => {
                out.append("JSON error: ");
                out.append(m.as_str());
            },
            HttpClientError::Interceptor(m) => {
                out.append("Interceptor error: ");
                out.append(m.as_str());
            },
            HttpClientError::StreamingBodyNotRetryable => {
                out.append(
                    "streaming body set by interceptor is not retry-safe: the body cannot be buffered/replayed for retry attempts (disable retries or have the interceptor set a buffered body)",
                );
            },
            HttpClientError::Http(e) => {
                out.append("HTTP error: ");
                out.append(e.message.as_str());
            },
            HttpClientError::UrlParse(e) => {
                out.append("URL parse error: ");
                out.append(parse_error_string(e).as_str());
            },
            HttpClientError::Io(m) => {
                out.append("I/O error: ");
                out.append(m.as_str());
            },
        }
        assert(out@ =~= self.text());
        out
    }

    /// The error is one that another attempt may cure: a timeout, a failed
    /// connection, or a status of 429 or of 500 and above.
    pub open spec fn retryable(self) -> bool {
        match self {
            HttpClientError::Timeout(_) => true,
            HttpClientError::Connection(_) => true,
            HttpClientError::Http(e) => e.timeout || e.connect,
            HttpClientError::Response { status, .. } => status >= 500 || status == 429,
            _ => false,
        }
    }

    /// Check if this error is retryable.
    pub fn is_retryable(&self) -> (r: bool)
        ensures
            r == self.retryable(),
    {
        match self {
            HttpClientError::Timeout(_) => true,
            HttpClientError::Connection(_) => true,
            HttpClientError::Http(e) => e.timeout || e.connect,
            // Retry on 5xx server errors and 429 rate limit
            HttpClientError::Response { status, .. } => *status >= 500 || *status == 429,
            _ => false,
        }
    }

    /// Check if this is a timeout error.
    pub fn is_timeout(&self) -> (r: bool)
        ensures
            r == (self is Timeout || self is Http && self->Http_0.timeout),
    {
        match self {
            HttpClientError::Timeout(_) => true,
            HttpClientError::Http(e) => e.timeout,
            _ => false,
        }
    }

    /// Check if this is a connection error.
    pub fn is_connection(&self) -> (r: bool)
        ensures
            r == (self is Connection || self is Http && self->Http_0.connect),
    {
        match self {
            HttpClientError::Connection(_) => true,
            HttpClientError::Http(e) => e.connect,
            _ => false,
        }
    }

    /// Get the HTTP status code if this is a response error.
    pub fn status_code(&self) -> (r: Option<u16>)
        ensures
            r == (match *self {
                HttpClientError::Response { status, .. } => Some(status),
                HttpClientError::Http(e) => e.status,
                _ => None,
            }),
    {
        match self {
            HttpClientError::Response { status, .. } => Some(*status),
            HttpClientError::Http(e) => e.status,
            _ => None,
        }
    }
}

} // verus!
