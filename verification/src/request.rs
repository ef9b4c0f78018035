//! Request builder.

use crate::config::HttpClientConfig;
use crate::error::HttpClientError;
use crate::header::{clone_headers, merge_headers, name_count, set_header, Setting};
use crate::wire::{append_pair, base64_encode, parse_error_string};
use http::{HeaderMap, Method};
use std::time::Duration;
use url::{ParseError, Url};
use vstd::prelude::*;
use vstd::utf8::*;

verus! {

/// What goes out when a request is sent.
pub struct RequestView {
    pub method: Seq<char>,
    pub url: Url,
    /// The headers: under each name, the values in order.
    pub headers: Map<Seq<char>, Seq<Seq<u8>>>,
    pub body: Option<Seq<u8>>,
    pub timeout: Option<Duration>,
}

/// The bytes of a body, if there is one.
pub open spec fn body_bytes(body: Option<Vec<u8>>) -> Option<Seq<u8>> {
    match body {
        Some(bytes) => Some(bytes@),
        None => None,
    }
}

/// The characters of a text, if there is one.
pub open spec fn text_chars(text: Option<String>) -> Option<Seq<char>> {
    match text {
        Some(s) => Some(s@),
        None => None,
    }
}

/// A request that is ready to be sent, once.
#[derive(Debug)]
pub struct Request {
    pub method: Method,
    pub url: Url,
    pub headers: HeaderMap,
    pub body: Option<Vec<u8>>,
    pub timeout: Option<Duration>,
}

impl View for Request {
    type V = RequestView;

    open spec fn view(&self) -> RequestView {
        RequestView {
            method: crate::wire::method_text(self.method),
            url: self.url,
            headers: crate::header::header_entries(self.headers),
            body: body_bytes(self.body),
            timeout: self.timeout,
        }
    }
}

impl Request {
    /// How many header names the request has.
    pub fn header_count(&self) -> (n: usize)
        ensures
            crate::header::has_names(self@.headers, n as nat),
    {
        name_count(&self.headers)
    }
}

/// A fully captured representation of a request to be sent.
///
/// Unlike a [`Request`], which is consumed when it is sent, it keeps everything
/// needed to build a fresh, complete request for every attempt.
#[derive(Debug)]
pub struct RequestSpec {
    pub method: Method,
    pub url: Url,
    pub headers: HeaderMap,
    pub body: Option<Vec<u8>>,
    pub timeout: Option<Duration>,
}

impl View for RequestSpec {
    type V = RequestView;

    open spec fn view(&self) -> RequestView {
        RequestView {
            method: crate::wire::method_text(self.method),
            url: self.url,
            headers: crate::header::header_entries(self.headers),
            body: body_bytes(self.body),
            timeout: self.timeout,
        }
    }
}

impl RequestSpec {
    /// Build a brand new request from this spec.
    ///
    /// Called once per attempt so that retries always carry the original body
    /// and timeout.
    pub fn to_request(&self) -> (r: Request)
        ensures
            r@ == self@,
            crate::wire::method_text(r.method) == crate::wire::method_text(self.method),
            r.url == self.url,
            crate::header::header_entries(r.headers) == crate::header::header_entries(self.headers),
            r.body is Some <==> self.body is Some,
            r.body is Some ==> r.body->0@ == self.body->0@,
            r.timeout == self.timeout,
    {
        let body = match &self.body {
            Some(bytes) => {
                let copy = bytes.clone();
                assert(copy@ =~= bytes@);
                Some(copy)
            },
            None => None,
        };
        Request {
            method: self.method.clone(),
            url: self.url.clone(),
            headers: clone_headers(&self.headers),
            body,
            timeout: self.timeout,
        }
    }
}

/// Where a request goes before query parameters are added: the URL itself, or
/// the URL as a reference on the base URL.
pub open spec fn location(base: Option<Seq<char>>, url: Seq<char>) -> Result<Url, ParseError> {
    match base {
        Some(text) => match crate::wire::url_parsed(text) {
            Ok(base) => crate::wire::url_joined(base, url),
            Err(e) => Err(e),
        },
        None => crate::wire::url_parsed(url),
    }
}

/// The URL with query pairs appended in order.
pub open spec fn with_query(url: Url, query: Seq<(Seq<char>, Seq<char>)>) -> Url
    decreases query.len(),
{
    if query.len() == 0 {
        url
    } else {
        crate::wire::url_with_pair(
            with_query(url, query.drop_last()),
            query.last().0,
            query.last().1,
        )
    }
}

/// How many bytes the query pairs take, each with a separator before it.
pub open spec fn query_size(query: Seq<(Seq<char>, Seq<char>)>) -> nat
    decreases query.len(),
{
    if query.len() == 0 {
        0
    } else {
        query_size(query.drop_last()) + 1 + crate::wire::pair_size(query.last().0, query.last().1)
    }
}

/// Query pairs can be appended to the URL: a query that begins and a fragment
/// that is moved begin at 32-bit offsets.
pub open spec fn query_fits(url: Url, query: Seq<(Seq<char>, Seq<char>)>) -> bool {
    query.len() > 0 ==> {
        &&& crate::wire::url_query(url) is None ==> crate::wire::base_size(url) <= u32::MAX
        &&& crate::wire::url_fragment(url) is Some ==> crate::wire::base_size(url) + query_size(
            query,
        ) + crate::wire::separator_size(url) - 1 <= u32::MAX
    }
}

/// The headers that the default headers amount to: of those of one name, the
/// last counts, and malformed ones do not count at all.
pub open spec fn default_entries(pairs: Seq<(Seq<char>, Seq<char>)>) -> Map<
    Seq<char>,
    Seq<Seq<u8>>,
>
    decreases pairs.len(),
{
    if pairs.len() == 0 {
        crate::header::no_headers()
    } else {
        let before = default_entries(pairs.drop_last());
        let (name, value) = pairs.last();
        if crate::header::well_formed_header(name, value) {
            crate::header::with_header(before, name, value)
        } else {
            before
        }
    }
}

/// The headers that cannot be sent, in order.
pub open spec fn malformed_headers(pairs: Seq<(Seq<char>, Seq<char>)>) -> Seq<
    (Seq<char>, Seq<char>),
> {
    pairs.filter(|h: (Seq<char>, Seq<char>)| !crate::header::well_formed_header(h.0, h.1))
}

/// Pairs of texts as pairs of characters.
pub open spec fn pair_chars(pairs: Seq<(String, String)>) -> Seq<(Seq<char>, Seq<char>)> {
    pairs.map_values(|p: (String, String)| (p.0@, p.1@))
}

/// What a request builder has been told.
pub struct BuilderView {
    pub config: HttpClientConfig,
    pub method: Seq<char>,
    pub url: Seq<char>,
    pub headers: Map<Seq<char>, Seq<Seq<u8>>>,
    pub query: Seq<(Seq<char>, Seq<char>)>,
    pub body: Option<Seq<u8>>,
    pub timeout: Option<Duration>,
    /// The names of the headers that were left out, in order.
    pub skipped: Seq<Seq<char>>,
    /// Headers were left out because the header map did not take them.
    pub full: bool,
}

impl BuilderView {
    /// Where the request goes before query parameters are added.
    pub open spec fn location(self) -> Result<Url, ParseError> {
        location(text_chars(self.config.base_url), self.url)
    }

    /// The query parameters can be appended to the URL.
    pub open spec fn url_fits(self) -> bool {
        self.location() is Ok ==> query_fits(self.location()->Ok_0, self.query)
    }

    /// The headers that go out: the default ones, and those of the request
    /// itself in their place.
    pub open spec fn merged_headers(self) -> Map<Seq<char>, Seq<Seq<u8>>> {
        default_entries(self.config.header_pairs()).union_prefer_right(self.headers)
    }

    /// The builder after a header was set: a malformed one is left out.
    pub open spec fn with_header(self, name: Seq<char>, value: Seq<char>) -> Self {
        if crate::header::well_formed_header(name, value) {
            BuilderView {
                headers: crate::header::with_header(self.headers, name, value),
                ..self
            }
        } else {
            BuilderView { skipped: self.skipped.push(name), ..self }
        }
    }

    /// The builder after headers were left out for want of room.
    pub open spec fn overfilled(self) -> Self {
        BuilderView { full: true, ..self }
    }

    /// `next` is the builder after a header that can be sent was set, which made
    /// it `wanted`, or for which there was no room.
    pub open spec fn sets(self, wanted: Self, next: Self) -> bool {
        next == wanted || !crate::header::has_room(self.headers) && next == self.overfilled()
    }

    /// The builder after its body was set, with a content type.
    pub open spec fn with_content(self, content_type: Seq<char>, body: Seq<u8>) -> Self {
        BuilderView {
            headers: crate::header::with_header(self.headers, "content-type"@, content_type),
            body: Some(body),
            ..self
        }
    }

    /// The request, given the URL before query parameters are added.
    pub open spec fn request_to(self, location: Url) -> RequestView {
        RequestView {
            method: self.method,
            url: with_query(location, self.query),
            headers: self.merged_headers(),
            body: self.body,
            timeout: self.timeout,
        }
    }
}

/// The text in which basic credentials are sent.
pub open spec fn basic_credentials(username: Seq<char>, password: Seq<char>) -> Seq<char> {
    username + ":"@ + password
}

/// The value of an authorization header with basic credentials.
pub open spec fn basic_value(username: Seq<char>, password: Seq<char>) -> Seq<char> {
    "Basic "@ + crate::wire::base64_text(encode_utf8(basic_credentials(username, password)))
}

/// The value of an authorization header with a bearer token.
pub open spec fn bearer_value(token: Seq<char>) -> Seq<char> {
    "Bearer "@ + token
}

/// The value of an authorization header with basic credentials.
pub fn basic_authorization(username: &str, password: &str) -> (r: String)
    ensures
        r@ == basic_value(username@, password@),
        crate::header::valid_header_value(encode_utf8(r@)),
{
    let mut credentials = String::new();
    credentials.append(username);
    credentials.append(":");
    credentials.append(password);
    assert(credentials@ =~= basic_credentials(username@, password@));
    let encoded = base64_encode(credentials.as_str().as_bytes());
    let mut value = String::new();
    value.append("Basic ");
    value.append(encoded.as_str());
    proof {
        reveal_strlit("Basic ");
        assert(value@ =~= basic_value(username@, password@));
        assert forall|i: int| 0 <= i < value@.len() implies ' ' <= #[trigger] value@[i] <= '~' by {
            if i >= 6 {
                assert(value@[i] == encoded@[i - 6]);
            }
        }
        crate::header::lemma_printable_text_is_a_value(value@);
    }
    value
}

/// The value of an authorization header with a bearer token.
pub fn bearer_authorization(token: &str) -> (r: String)
    ensures
        r@ == bearer_value(token@),
{
    let mut value = String::new();
    value.append("Bearer ");
    value.append(token);
    assert(value@ =~= bearer_value(token@));
    value
}

/// HTTP request builder.
#[derive(Debug)]
pub struct RequestBuilder<'a> {
    config: &'a HttpClientConfig,
    method: Method,
    url: String,
    headers: HeaderMap,
    query: Vec<(String, String)>,
    body: Option<Vec<u8>>,
    timeout: Option<Duration>,
    skipped: Vec<String>,
    full: bool,
}

impl<'a> View for RequestBuilder<'a> {
    type V = BuilderView;

    closed spec fn view(&self) -> BuilderView {
        BuilderView {
            config: *self.config,
            method: crate::wire::method_text(self.method),
            url: self.url@,
            headers: crate::header::header_entries(self.headers),
            query: pair_chars(self.query@),
            body: body_bytes(self.body),
            timeout: self.timeout,
            skipped: self.skipped@.map_values(|s: String| s@),
            full: self.full,
        }
    }
}

impl<'a> RequestBuilder<'a> {
    /// Create a new request builder.
    pub fn new(config: &'a HttpClientConfig, method: Method, url: &str) -> (r: Self)
        ensures
            r@ == (BuilderView {
                config: *config,
                method: crate::wire::method_text(method),
                url: url@,
                headers: crate::header::no_headers(),
                query: Seq::empty(),
                body: None,
                timeout: None,
                skipped: Seq::empty(),
                full: false,
            }),
    {
        let r = RequestBuilder {
            config,
            method,
            url: url.to_string(),
            headers: HeaderMap::new(),
            query: Vec::new(),
            body: None,
            timeout: None,
            skipped: Vec::new(),
            full: false,
        };
        assert(r@.query =~= Seq::<(Seq<char>, Seq<char>)>::empty());
        assert(r@.skipped =~= Seq::<Seq<char>>::empty());
        r
    }

    /// How many header names the request has so far.
    pub fn header_count(&self) -> (n: usize)
        ensures
            crate::header::has_names(self@.headers, n as nat),
    {
        name_count(&self.headers)
    }

    /// The names of the headers that were left out because their name or value
    /// cannot be sent. The values are not kept: they are credentials often
    /// enough.
    pub fn skipped_headers(&self) -> (r: &Vec<String>)
        ensures
            r@.map_values(|s: String| s@) == self@.skipped,
    {
        &self.skipped
    }

    /// Check if headers were left out because the header map did not take them.
    /// It takes them all up to [`MAX_HEADER_NAMES`](crate::header::MAX_HEADER_NAMES)
    /// names and one more.
    pub fn is_full(&self) -> (r: bool)
        ensures
            r == self@.full,
    {
        self.full
    }

    /// Get the value of a header of the request as text.
    pub fn header_value(&self, name: &str) -> (r: Option<&str>)
        ensures
            match r {
                Some(text) => crate::header::header_text(self@.headers, name@) == Some(text@),
                None => crate::header::header_text(self@.headers, name@) is None,
            },
    {
        crate::header::header_str(&self.headers, name)
    }

    /// Add a header to the request.
    ///
    /// A header whose name or value is not valid HTTP (e.g. a bearer token
    /// with a stray newline) cannot be sent, so it is left out, and its name is
    /// noted in [`RequestBuilder::skipped_headers`].
    pub fn header(self, name: &str, value: &str) -> (r: Self)
        ensures
            if crate::header::well_formed_header(name@, value@) {
                self@.sets(self@.with_header(name@, value@), r@)
            } else {
                r@ == self@.with_header(name@, value@)
            },
    {
        let mut headers = self.headers;
        match set_header(&mut headers, name, value) {
            Setting::Done => RequestBuilder { headers, ..self },
            Setting::Malformed => {
                let mut skipped = self.skipped;
                let ghost before = skipped@;
                skipped.push(name.to_string());
                assert(skipped@.map_values(|s: String| s@) =~= before.map_values(
                    |s: String| s@,
                ).push(name@));
                RequestBuilder { headers, skipped, ..self }
            },
            Setting::Full => RequestBuilder { headers, full: true, ..self },
        }
    }

    /// Add multiple headers to the request.
    pub fn headers(self, headers: HeaderMap) -> (r: Self)
        ensures
            ({
                let merged = self@.headers.union_prefer_right(
                    crate::header::header_entries(headers),
                );
                ||| r@ == (BuilderView { headers: merged, ..self@ })
                ||| !crate::header::has_room(merged) && r@ == self@.overfilled()
            }),
    {
        let mut merged = self.headers;
        if merge_headers(&mut merged, headers) {
            RequestBuilder { headers: merged, ..self }
        } else {
            RequestBuilder { headers: merged, full: true, ..self }
        }
    }

    /// Add a query parameter.
    pub fn query(self, key: &str, value: &str) -> (r: Self)
        ensures
            r@ == (BuilderView { query: self@.query.push((key@, value@)), ..self@ }),
    {
        let mut query = self.query;
        query.push((key.to_string(), value.to_string()));
        assert(pair_chars(query@) =~= self@.query.push((key@, value@)));
        RequestBuilder { query, ..self }
    }

    /// Add multiple query parameters.
    pub fn queries(self, params: Vec<(String, String)>) -> (r: Self)
        ensures
            r@ == (BuilderView { query: self@.query + pair_chars(params@), ..self@ }),
    {
        let mut query = self.query;
        let mut params = params;
        let ghost given = params@;
        query.append(&mut params);
        assert(pair_chars(query@) =~= self@.query + pair_chars(given));
        RequestBuilder { query, ..self }
    }

    /// Set the request body as raw bytes.
    pub fn body(self, body: Vec<u8>) -> (r: Self)
        ensures
            r@ == (BuilderView { body: Some(body@), ..self@ }),
    {
        RequestBuilder { body: Some(body), ..self }
    }

    /// Sets the body and its content type.
    fn content(self, content_type: &str, body: Vec<u8>) -> (r: Self)
        requires
            crate::header::valid_header_value(encode_utf8(content_type@)),
        ensures
            self@.sets(self@.with_content(content_type@, body@), r@),
    {
        let mut headers = self.headers;
        proof {
            lemma_content_type_is_a_name();
        }
        match set_header(&mut headers, "content-type", content_type) {
            Setting::Done => RequestBuilder { headers, body: Some(body), ..self },
            _ => RequestBuilder { headers, full: true, ..self },
        }
    }

    /// Set the request body as text.
    pub fn text(self, text: &str) -> (r: Self)
        ensures
            self@.sets(
                self@.with_content("text/plain; charset=utf-8"@, encode_utf8(text@)),
                r@,
            ),
    {
        proof {
            reveal_strlit("text/plain; charset=utf-8");
            crate::header::lemma_printable_text_is_a_value("text/plain; charset=utf-8"@);
        }
        let bytes = vstd::slice::slice_to_vec(text.as_bytes());
        self.content("text/plain; charset=utf-8", bytes)
    }

    /// Set the request body as JSON, given what serializing the value came to:
    /// the bytes, or the description of why there are none.
    ///
    /// Returns an error rather than silently producing a bodyless request if
    /// serialization failed.
    pub fn json(self, encoded: Result<Vec<u8>, String>) -> (r: Result<Self, HttpClientError>)
        ensures
            match encoded {
                Ok(bytes) => r is Ok && self@.sets(
                    self@.with_content("application/json"@, bytes@),
                    r->Ok_0@,
                ),
                Err(message) => r == Err::<Self, HttpClientError>(HttpClientError::Json(message)),
            },
    {
        match encoded {
            Ok(bytes) => {
                proof {
                    reveal_strlit("application/json");
                    crate::header::lemma_printable_text_is_a_value("application/json"@);
                }
                Ok(self.content("application/json", bytes))
            },
            Err(message) => Err(HttpClientError::Json(message)),
        }
    }

    /// Set the request body as form data, given what encoding the form came to:
    /// the text, or the description of why there is none.
    ///
    /// Returns an error rather than silently producing a bodyless request if
    /// encoding failed.
    pub fn form(self, encoded: Result<String, String>) -> (r: Result<Self, HttpClientError>)
        ensures
            match encoded {
                Ok(text) => r is Ok && self@.sets(
                    self@.with_content(
                        "application/x-www-form-urlencoded"@,
                        encode_utf8(text@),
                    ),
                    r->Ok_0@,
                ),
                Err(message) => r == Err::<Self, HttpClientError>(
                    HttpClientError::RequestBuild(message),
                ),
            },
    {
        match encoded {
            Ok(text) => {
                proof {
                    reveal_strlit("application/x-www-form-urlencoded");
                    crate::header::lemma_printable_text_is_a_value(
                        "application/x-www-form-urlencoded"@,
                    );
                }
                let bytes = vstd::slice::slice_to_vec(text.as_str().as_bytes());
                Ok(self.content("application/x-www-form-urlencoded", bytes))
            },
            Err(message) => Err(HttpClientError::RequestBuild(message)),
        }
    }

    /// Set a custom timeout for this request.
    pub fn timeout(self, timeout: Duration) -> (r: Self)
        ensures
            r@ == (BuilderView { timeout: Some(timeout), ..self@ }),
    {
        RequestBuilder { timeout: Some(timeout), ..self }
    }

    /// Set bearer authentication.
    pub fn bearer_auth(self, token: &str) -> (r: Self)
        ensures
            if crate::header::valid_header_value(encode_utf8(bearer_value(token@))) {
                self@.sets(self@.with_header("Authorization"@, bearer_value(token@)), r@)
            } else {
                r@ == self@.with_header("Authorization"@, bearer_value(token@))
            },
    {
        let value = bearer_authorization(token);
        self.header("Authorization", value.as_str())
    }

    /// Set basic authentication.
    pub fn basic_auth(self, username: &str, password: Option<&str>) -> (r: Self)
        ensures
            self@.sets(
                self@.with_header(
                    "Authorization"@,
                    basic_value(
                        username@,
                        match password {
                            Some(p) => p@,
                            None => Seq::empty(),
                        },
                    ),
                ),
                r@,
            ),
    {
        let value = match password {
            Some(p) => basic_authorization(username, p),
            None => {
                proof {
                    reveal_strlit("");
                    assert(""@ =~= Seq::<char>::empty());
                }
                basic_authorization(username, "")
            },
        };
        self.header("Authorization", value.as_str())
    }
}

/// A request that can be carried out, and what was left out of it.
#[derive(Debug)]
pub struct Prepared {
    /// The request.
    pub spec: RequestSpec,
    /// The default headers, by name and value, that cannot be sent.
    pub skipped_defaults: Vec<(String, String)>,
}

impl<'a> RequestBuilder<'a> {
    /// Build the URL with query parameters, unless it would be too long for them.
    pub fn build_url(&self) -> (r: Option<Result<Url, HttpClientError>>)
        ensures
            r is Some <==> self@.url_fits(),
            r is Some ==> match self@.location() {
                Ok(url) => r->0 == Ok::<Url, HttpClientError>(with_query(url, self@.query)),
                Err(e) => r->0 matches Err(HttpClientError::InvalidUrl(message)) && message@
                    == crate::wire::parse_error_text(e),
            },
    {
        match self.locate() {
            Ok(url) => if self.has_room_in(&url) {
                Some(Ok(self.add_query(url)))
            } else {
                None
            },
            Err(e) => Some(Err(HttpClientError::InvalidUrl(parse_error_string(&e)))),
        }
    }

    /// Where the request goes before query parameters are added.
    fn locate(&self) -> (r: Result<Url, ParseError>)
        ensures
            r == self@.location(),
    {
        match &self.config.base_url {
            Some(base) => match Url::parse(base.as_str()) {
                Ok(base) => base.join(self.url.as_str()),
                Err(e) => Err(e),
            },
            None => Url::parse(self.url.as_str()),
        }
    }

    /// Appends the query parameters.
    fn add_query(&self, url: Url) -> (r: Url)
        requires
            query_fits(url, self@.query),
        ensures
            r == with_query(url, self@.query),
    {
        let mut extended = url;
        let ghost query = self@.query;
        let mut i: usize = 0;
        assert(query.take(0) =~= Seq::<(Seq<char>, Seq<char>)>::empty());
        while i < self.query.len()
            invariant
                i <= self.query@.len(),
                query == self@.query,
                query.len() == self.query@.len(),
                query_fits(url, query),
                extended == with_query(url, query.take(i as int)),
                crate::wire::url_fragment(extended) == crate::wire::url_fragment(url),
                if i == 0 {
                    extended == url
                } else {
                    &&& crate::wire::url_query(extended) is Some
                    &&& crate::wire::separator_size(extended) == 1
                    &&& crate::wire::base_size(extended) == crate::wire::base_size(url)
                        + query_size(query.take(i as int)) + crate::wire::separator_size(url) - 1
                },
            decreases self.query@.len() - i,
        {
            assert(query.take(i + 1).drop_last() =~= query.take(i as int));
            assert(query[i as int] == (self.query@[i as int].0@, self.query@[i as int].1@));
            assert(i == 0 ==> query_size(query.take(i as int)) == 0);
            proof {
                lemma_query_grows(query, i + 1);
            }
            append_pair(&mut extended, self.query[i].0.as_str(), self.query[i].1.as_str());
            i = i + 1;
        }
        assert(query.take(query.len() as int) =~= query);
        extended
    }

    /// The default headers of the configuration, and those among them that
    /// cannot be sent, unless the header map does not take them.
    fn default_headers(&self) -> (r: Option<(HeaderMap, Vec<(String, String)>)>)
        ensures
            r is None ==> !crate::header::has_room(default_entries(self@.config.header_pairs())),
            r is Some ==> {
                &&& crate::header::header_entries((r->0).0) == default_entries(
                    self@.config.header_pairs(),
                )
                &&& pair_chars((r->0).1@) == malformed_headers(self@.config.header_pairs())
            },
    {
        let mut headers = HeaderMap::new();
        let mut skipped: Vec<(String, String)> = Vec::new();
        let ghost pairs = self@.config.header_pairs();
        let defaults = &self.config.default_headers;
        let mut i: usize = 0;
        assert(pairs.take(0) =~= Seq::<(Seq<char>, Seq<char>)>::empty());
        assert(pair_chars(skipped@) =~= malformed_headers(pairs.take(0))) by {
            reveal(Seq::filter);
        }
        while i < defaults.len()
            invariant
                i <= defaults@.len(),
                pairs == self@.config.header_pairs(),
                defaults@ == self@.config.default_headers@,
                pairs.len() == defaults@.len(),
                crate::header::header_entries(headers) == default_entries(pairs.take(i as int)),
                pair_chars(skipped@) == malformed_headers(pairs.take(i as int)),
            decreases defaults@.len() - i,
        {
            assert(pairs.take(i + 1).drop_last() =~= pairs.take(i as int));
            assert(pairs[i as int] == (defaults@[i as int].0@, defaults@[i as int].1@));
            proof {
                lemma_defaults_grow(pairs, i as int);
            }
            let name = &defaults[i].0;
            let value = &defaults[i].1;
            let ghost before = skipped@;
            match set_header(&mut headers, name.as_str(), value.as_str()) {
                Setting::Done => {},
                Setting::Malformed => {
                    skipped.push((name.clone(), value.clone()));
                    assert(pair_chars(skipped@) =~= pair_chars(before).push(pairs[i as int]));
                },
                Setting::Full => {
                    return None;
                },
            }
            proof {
                reveal(Seq::filter);
                assert(pairs.take(i + 1).last() == pairs[i as int]);
            }
            i = i + 1;
        }
        assert(pairs.take(pairs.len() as int) =~= pairs);
        Some((headers, skipped))
    }

    /// Capture the request, with the default headers of the configuration and
    /// with its own headers in their place. There is none where the URL would be
    /// too long for the query parameters or the header map does not take all
    /// headers.
    pub fn prepare(self) -> (r: Option<Result<Prepared, HttpClientError>>)
        ensures
            self@.full || !self@.url_fits() ==> r is None,
            !self@.full && self@.location() is Err ==> r is Some,
            !self@.full && self@.url_fits() && crate::header::has_room(self@.merged_headers())
                ==> r is Some,
            r is Some ==> match self@.location() {
                Ok(url) => {
                    &&& r->0 is Ok
                    &&& r->0->Ok_0.spec@ == self@.request_to(url)
                    &&& pair_chars(r->0->Ok_0.skipped_defaults@) == malformed_headers(
                        self@.config.header_pairs(),
                    )
                },
                Err(e) => r->0 matches Err(HttpClientError::InvalidUrl(message)) && message@
                    == crate::wire::parse_error_text(e),
            },
            r matches Some(Ok(prepared)) ==> {
                &&& self@.location() is Ok
                &&& crate::wire::method_text(prepared.spec.method) == self@.method
                &&& prepared.spec.url == with_query(self@.location()->Ok_0, self@.query)
                &&& crate::header::header_entries(prepared.spec.headers) == default_entries(
                    self@.config.header_pairs(),
                ).union_prefer_right(self@.headers)
                &&& prepared.spec.body is Some <==> self@.body is Some
                &&& prepared.spec.body is Some ==> prepared.spec.body->0@ == self@.body->0
                &&& prepared.spec.timeout == self@.timeout
            },
    {
        if self.full {
            return None;
        }
        let url = match self.build_url() {
            None => {
                return None;
            },
            Some(Err(e)) => {
                return Some(Err(e));
            },
            Some(Ok(url)) => url,
        };
        proof {
            let pairs = self@.config.header_pairs();
            let defaults = default_entries(pairs);
            lemma_default_size(pairs);
            assert(defaults.dom().subset_of(self@.merged_headers().dom()));
            if crate::header::has_room(self@.merged_headers()) {
                vstd::set_lib::lemma_len_subset(defaults.dom(), self@.merged_headers().dom());
            }
        }
        match self.default_headers() {
            None => None,
            Some((mut headers, skipped_defaults)) => {
                // Request-specific headers take precedence
                if !merge_headers(&mut headers, self.headers) {
                    return None;
                }
                Some(
                    Ok(
                        Prepared {
                            spec: RequestSpec {
                                method: self.method,
                                url,
                                headers,
                                body: self.body,
                                timeout: self.timeout,
                            },
                            skipped_defaults,
                        },
                    ),
                )
            },
        }
    }

    /// The query parameters can be appended to the URL.
    fn has_room_in(&self, url: &Url) -> (r: bool)
        ensures
            r == query_fits(*url, self@.query),
    {
        if self.query.len() == 0 {
            return true;
        }
        let limit: usize = 0xFFFF_FFFF;
        let whole: usize = url.as_str().as_bytes().len();
        let (base, has_fragment): (usize, bool) = match url.fragment() {
            Some(fragment) => (whole - fragment.as_bytes().len() - 1, true),
            None => (whole, false),
        };
        let first_separator: usize = match url.query() {
            Some(query) => if query.as_bytes().len() == 0 {
                0
            } else {
                1
            },
            None => {
                if base > limit {
                    return false;
                }
                1
            },
        };
        !has_fragment || self.query_ends_within(base, first_separator)
    }

    /// The query parameters, appended to `base` bytes, end within 32-bit offsets.
    /// The first one has a separator of `first_separator` bytes before it, and
    /// each other one has a separator of one byte.
    fn query_ends_within(&self, base: usize, first_separator: usize) -> (r: bool)
        requires
            self@.query.len() > 0,
            first_separator <= 1,
        ensures
            r == (base + query_size(self@.query) + first_separator - 1 <= u32::MAX),
    {
        let limit: usize = 0xFFFF_FFFF;
        let ghost query = self@.query;
        proof {
            lemma_query_grows(query, 1);
            assert(query.take(1).drop_last() =~= Seq::<(Seq<char>, Seq<char>)>::empty());
        }
        if base > limit {
            return false;
        }
        let mut size: u64 = base as u64 + first_separator as u64;
        let mut i: usize = 0;
        assert(query.take(0) =~= Seq::<(Seq<char>, Seq<char>)>::empty());
        while i < self.query.len()
            invariant
                i <= self.query@.len(),
                limit == u32::MAX,
                size <= limit + 1,
                query == self@.query,
                query.len() == self.query@.len(),
                size == base + first_separator + query_size(query.take(i as int)),
            decreases self.query@.len() - i,
        {
            assert(query.take(i + 1).drop_last() =~= query.take(i as int));
            assert(query[i as int] == (self.query@[i as int].0@, self.query@[i as int].1@));
            proof {
                lemma_query_grows(query, i + 1);
            }
            let pair = escaped_pair_size(self.query[i].0.as_str(), self.query[i].1.as_str());
            match pair {
                Some(n) => {
                    size = size + 1 + n;
                },
                None => {
                    return false;
                },
            }
            if size > limit as u64 + 1 {
                return false;
            }
            i = i + 1;
        }
        assert(query.take(query.len() as int) =~= query);
        true
    }
}

/// The size of a query pair, unless it is beyond 32 bits.
fn escaped_pair_size(key: &str, value: &str) -> (r: Option<u64>)
    ensures
        match r {
            Some(n) => n == crate::wire::pair_size(key@, value@) && n <= 0x2_0000_0000,
            None => crate::wire::pair_size(key@, value@) > u32::MAX,
        },
{
    match (escaped_size_of(key), escaped_size_of(value)) {
        (Some(k), Some(v)) => Some(k + 1 + v),
        _ => None,
    }
}

/// The size of a text once it is escaped, unless it is beyond 32 bits.
fn escaped_size_of(text: &str) -> (r: Option<u64>)
    ensures
        match r {
            Some(n) => n == crate::wire::escaped_size(encode_utf8(text@)) && n <= u32::MAX,
            None => crate::wire::escaped_size(encode_utf8(text@)) > u32::MAX,
        },
{
    let bytes = text.as_bytes();
    let ghost all = bytes@;
    let len: usize = bytes.len();
    let mut size: u64 = 0;
    let mut i: usize = 0;
    assert(all.take(0) =~= Seq::<u8>::empty());
    while i < len
        invariant
            all == bytes@,
            all == encode_utf8(text@),
            len == all.len(),
            i <= len,
            size <= u32::MAX,
            size == crate::wire::escaped_size(all.take(i as int)),
        decreases len - i,
    {
        assert(all.take(i + 1).drop_last() =~= all.take(i as int));
        proof {
            lemma_escaped_size_grows(all, i + 1);
        }
        size = size + if is_kept(bytes[i]) {
            1
        } else {
            3
        };
        if size > 0xFFFF_FFFF {
            return None;
        }
        i = i + 1;
    }
    assert(all.take(len as int) =~= all);
    Some(size)
}

/// The byte takes one byte in a query.
fn is_kept(b: u8) -> (r: bool)
    ensures
        r == crate::wire::kept_byte(b),
{
    b == 32 || b == 42 || b == 45 || b == 46 || b == 95 || 48 <= b && b <= 57 || 65 <= b && b <= 90
        || 97 <= b && b <= 122
}

proof fn lemma_escaped_size_grows(bytes: Seq<u8>, i: int)
    requires
        0 <= i <= bytes.len(),
    ensures
        crate::wire::escaped_size(bytes.take(i)) <= crate::wire::escaped_size(bytes),
    decreases bytes.len() - i,
{
    if i == bytes.len() {
        assert(bytes.take(i) =~= bytes);
    } else {
        lemma_escaped_size_grows(bytes, i + 1);
        assert(bytes.take(i + 1).drop_last() =~= bytes.take(i));
    }
}

proof fn lemma_query_grows(query: Seq<(Seq<char>, Seq<char>)>, i: int)
    requires
        0 <= i <= query.len(),
    ensures
        query_size(query.take(i)) <= query_size(query),
    decreases query.len() - i,
{
    if i == query.len() {
        assert(query.take(i) =~= query);
    } else {
        lemma_query_grows(query, i + 1);
        assert(query.take(i + 1).drop_last() =~= query.take(i));
    }
}

proof fn lemma_default_size(pairs: Seq<(Seq<char>, Seq<char>)>)
    ensures
        default_entries(pairs).dom().finite(),
        default_entries(pairs).dom().len() <= pairs.len(),
    decreases pairs.len(),
{
    if pairs.len() > 0 {
        lemma_default_size(pairs.drop_last());
    }
}

proof fn lemma_defaults_grow(pairs: Seq<(Seq<char>, Seq<char>)>, i: int)
    requires
        0 <= i <= pairs.len(),
    ensures
        default_entries(pairs.take(i)).dom().finite(),
        default_entries(pairs.take(i)).dom().len() <= default_entries(pairs).dom().len(),
    decreases pairs.len() - i,
{
    lemma_default_size(pairs.take(i));
    if i == pairs.len() {
        assert(pairs.take(i) =~= pairs);
    } else {
        lemma_defaults_grow(pairs, i + 1);
        assert(pairs.take(i + 1).drop_last() =~= pairs.take(i));
    }
}

proof fn lemma_content_type_is_a_name()
    ensures
        crate::header::valid_header_name("content-type"@),
{
    reveal_strlit("content-type");
}

} // verus!
