//! What errors say of themselves.

use crate::error::{HttpClientError, TransportError};
use std::time::Duration;
use vstd::prelude::*;

verus! {

/// An error that carries a message displays it at the end, behind what kind of
/// error it is.
pub proof fn law_errors_display_their_message(message: String, e: TransportError)
    ensures
        HttpClientError::Connection(message).text() == "Connection error: "@ + message@,
        HttpClientError::InvalidUrl(message).text() == "Invalid URL: "@ + message@,
        HttpClientError::RequestBuild(message).text() == "Failed to build request: "@ + message@,
        HttpClientError::Json(message).text() == "JSON error: "@ + message@,
        HttpClientError::Interceptor(message).text() == "Interceptor error: "@ + message@,
        HttpClientError::Io(message).text() == "I/O error: "@ + message@,
        HttpClientError::Http(e).text() == "HTTP error: "@ + e.message@,
{
}

/// An error that carries numbers displays them.
pub proof fn law_errors_display_their_numbers(
    attempts: u32,
    status: u16,
    after: Duration,
    message: String,
    cause: url::ParseError,
)
    ensures
        (HttpClientError::RetryExhausted { attempts, message }).text() == "Request failed after "@
            + crate::text::decimal(attempts as nat) + " attempts: "@ + message@,
        (HttpClientError::Response { status, message }).text() == "Response error: "@
            + crate::text::decimal(status as nat) + " - "@ + message@,
        HttpClientError::Timeout(after).text() == "Request timed out after "@
            + crate::text::duration_debug_text(crate::clock::duration_nanos(after)),
        HttpClientError::UrlParse(cause).text() == "URL parse error: "@
            + crate::wire::parse_error_text(cause),
        HttpClientError::CircuitOpen.text() == "Circuit breaker is open, request rejected"@,
        HttpClientError::StreamingBodyNotRetryable.text()
            == "streaming body set by interceptor is not retry-safe: the body cannot be buffered/replayed for retry attempts (disable retries or have the interceptor set a buffered body)"@,
{
}

/// Timeouts and failed connections are worth another attempt, and so are responses
/// with a status of 429 or of 500 and above; nothing else is.
pub proof fn law_which_errors_are_retryable(error: HttpClientError)
    ensures
        error is Timeout || error is Connection ==> error.retryable(),
        error matches HttpClientError::Http(e) ==> (error.retryable() <==> e.timeout || e.connect),
        error matches HttpClientError::Response { status, .. } ==> (error.retryable() <==> status
            == 429 || status >= 500),
        error is RetryExhausted || error is CircuitOpen || error is InvalidUrl || error
            is RequestBuild || error is Json || error is Interceptor || error
            is StreamingBodyNotRetryable || error is UrlParse || error is Io
            ==> !error.retryable(),
{
}

} // verus!
