//! HTTP response wrapper.

use crate::error::HttpClientError;
use crate::header::header_str;
use crate::text::{parse_u64, utf8_error_string};
use crate::wire::bytes_slice;
use bytes::Bytes;
use http::{HeaderMap, StatusCode};
use url::Url;
use vstd::prelude::*;
use vstd::utf8::*;

verus! {

/// What a response says.
pub struct ResponseView {
    /// The number of its status.
    pub status: u16,
    /// Its headers: under each name, the values in order.
    pub headers: Map<Seq<char>, Seq<Seq<u8>>>,
    /// Its body.
    pub body: Seq<u8>,
    /// Where it came from.
    pub url: Url,
}

impl ResponseView {
    pub open spec fn is_success(self) -> bool {
        200 <= self.status < 300
    }

    pub open spec fn is_client_error(self) -> bool {
        400 <= self.status < 500
    }

    pub open spec fn is_server_error(self) -> bool {
        500 <= self.status < 600
    }

    /// The value of a header as text.
    pub open spec fn header(self, name: Seq<char>) -> Option<Seq<char>> {
        crate::header::header_text(self.headers, name)
    }

    /// The body as text, or why it is none.
    pub open spec fn text(self) -> Result<Seq<char>, Seq<char>> {
        if valid_utf8(self.body) {
            Ok(decode_utf8(self.body))
        } else {
            Err(crate::text::utf8_error_text(crate::text::utf8_error(self.body)))
        }
    }

    /// The message of an error response: the body as text, if it is any.
    pub open spec fn error_message(self) -> Seq<char> {
        match self.text() {
            Ok(text) => text,
            Err(_) => "Unknown error"@,
        }
    }
}

/// HTTP response wrapper.
#[derive(Debug)]
pub struct Response {
    status: StatusCode,
    headers: HeaderMap,
    body: Bytes,
    url: Url,
}

impl View for Response {
    type V = ResponseView;

    closed spec fn view(&self) -> ResponseView {
        ResponseView {
            status: crate::wire::status_number(self.status),
            headers: crate::header::header_entries(self.headers),
            body: crate::wire::bytes_contents(self.body),
            url: self.url,
        }
    }
}

impl Response {
    /// Create a response from what was received.
    pub fn from_parts(status: StatusCode, headers: HeaderMap, body: Bytes, url: Url) -> (r: Self)
        ensures
            r@ == (ResponseView {
                status: crate::wire::status_number(status),
                headers: crate::header::header_entries(headers),
                body: crate::wire::bytes_contents(body),
                url,
            }),
    {
        Response { status, headers, body, url }
    }

    /// Get the status code.
    pub fn status(&self) -> (r: StatusCode)
        ensures
            crate::wire::status_number(r) == self@.status,
    {
        self.status
    }

    /// Check if the response was successful (2xx).
    pub fn is_success(&self) -> (r: bool)
        ensures
            r == self@.is_success(),
    {
        self.status.is_success()
    }

    /// Check if the response was a client error (4xx).
    pub fn is_client_error(&self) -> (r: bool)
        ensures
            r == self@.is_client_error(),
    {
        self.status.is_client_error()
    }

    /// Check if the response was a server error (5xx).
    pub fn is_server_error(&self) -> (r: bool)
        ensures
            r == self@.is_server_error(),
    {
        self.status.is_server_error()
    }

    /// Get the response headers.
    pub fn headers(&self) -> (r: &HeaderMap)
        ensures
            crate::header::header_entries(*r) == self@.headers,
    {
        &self.headers
    }

    /// Get a specific header value.
    pub fn header(&self, name: &str) -> (r: Option<&str>)
        ensures
            match r {
                Some(text) => self@.header(name@) == Some(text@),
                None => self@.header(name@) is None,
            },
    {
        header_str(&self.headers, name)
    }

    /// Get the response URL.
    pub fn url(&self) -> (r: &Url)
        ensures
            *r == self@.url,
    {
        &self.url
    }

    /// Get the response body as bytes.
    pub fn bytes(&self) -> (r: &Bytes)
        ensures
            crate::wire::bytes_contents(*r) == self@.body,
    {
        &self.body
    }

    /// Consume the response and return the body as bytes.
    pub fn into_bytes(self) -> (r: Bytes)
        ensures
            crate::wire::bytes_contents(r) == self@.body,
    {
        self.body
    }

    /// Get the response body as text.
    pub fn text(&self) -> (r: Result<String, HttpClientError>)
        ensures
            match r {
                Ok(text) => self@.text() == Ok::<Seq<char>, Seq<char>>(text@),
                Err(HttpClientError::Json(message)) => self@.text() == Err::<Seq<char>, Seq<char>>(
                    message@,
                ),
                Err(_) => false,
            },
    {
        let bytes = vstd::slice::slice_to_vec(bytes_slice(&self.body));
        match String::from_utf8(bytes) {
            Ok(text) => Ok(text),
            Err(e) => Err(HttpClientError::Json(utf8_error_string(&e))),
        }
    }

    /// Consume the response and return the body as text.
    pub fn into_text(self) -> (r: Result<String, HttpClientError>)
        ensures
            match r {
                Ok(text) => self@.text() == Ok::<Seq<char>, Seq<char>>(text@),
                Err(HttpClientError::Json(message)) => self@.text() == Err::<Seq<char>, Seq<char>>(
                    message@,
                ),
                Err(_) => false,
            },
    {
        self.text()
    }

    /// Parse the response body as JSON. `parse` is handed the bytes of the body
    /// and gives the value, or the description of why there is none.
    pub fn json<T, F: FnOnce(&[u8]) -> Result<T, String>>(&self, parse: F) -> (r: Result<
        T,
        HttpClientError,
    >)
        requires
            forall|body: &[u8]| body@ == self@.body ==> #[trigger] parse.requires((body,)),
        ensures
            exists|body: &[u8], parsed: Result<T, String>|
                {
                    &&& body@ == self@.body
                    &&& #[trigger] parse.ensures((body,), parsed)
                    &&& match parsed {
                        Ok(value) => r == Ok::<T, HttpClientError>(value),
                        Err(message) => r == Err::<T, HttpClientError>(
                            HttpClientError::Json(message),
                        ),
                    }
                },
    {
        let body = bytes_slice(&self.body);
        match parse(body) {
            Ok(value) => Ok(value),
            Err(message) => Err(HttpClientError::Json(message)),
        }
    }

    /// Consume the response and parse as JSON.
    pub fn into_json<T, F: FnOnce(&[u8]) -> Result<T, String>>(self, parse: F) -> (r: Result<
        T,
        HttpClientError,
    >)
        requires
            forall|body: &[u8]| body@ == self@.body ==> #[trigger] parse.requires((body,)),
        ensures
            exists|body: &[u8], parsed: Result<T, String>|
                {
                    &&& body@ == self@.body
                    &&& #[trigger] parse.ensures((body,), parsed)
                    &&& match parsed {
                        Ok(value) => r == Ok::<T, HttpClientError>(value),
                        Err(message) => r == Err::<T, HttpClientError>(
                            HttpClientError::Json(message),
                        ),
                    }
                },
    {
        self.json(parse)
    }

    /// Get the content length if available.
    pub fn content_length(&self) -> (r: Option<u64>)
        ensures
            r == (match self@.header("content-length"@) {
                Some(text) => crate::text::parsed_u64(text),
                None => None,
            }),
    {
        match self.header("content-length") {
            Some(text) => parse_u64(text),
            None => None,
        }
    }

    /// Get the content type if available.
    pub fn content_type(&self) -> (r: Option<&str>)
        ensures
            match r {
                Some(text) => self@.header("content-type"@) == Some(text@),
                None => self@.header("content-type"@) is None,
            },
    {
        self.header("content-type")
    }

    /// Check for an error response and return it.
    pub fn error_for_status(self) -> (r: Result<Self, HttpClientError>)
        ensures
            match r {
                Ok(response) => {
                    &&& response == self
                    &&& !self@.is_client_error() && !self@.is_server_error()
                },
                Err(HttpClientError::Response { status, message }) => {
                    &&& self@.is_client_error() || self@.is_server_error()
                    &&& status == self@.status
                    &&& message@ == self@.error_message()
                },
                Err(_) => false,
            },
    {
        if self.status.is_client_error() || self.status.is_server_error() {
            let message = match self.text() {
                Ok(text) => text,
                Err(_) => "Unknown error".to_string(),
            };
            Err(HttpClientError::Response { status: self.status.as_u16(), message })
        } else {
            Ok(self)
        }
    }
}

} // verus!
