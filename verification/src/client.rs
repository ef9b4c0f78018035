//! HTTP client: its configuration, its interceptors and the requests it builds.

use crate::circuit_breaker::{BreakerView, CircuitBreaker};
use crate::config::HttpClientConfig;
use crate::request::{BuilderView, RequestBuilder};
use crate::wire::method_named;
use http::Method;
use std::time::Duration;
use vstd::prelude::*;

verus! {

/// Whether and how far redirects are followed.
#[derive(Debug, Clone, Copy, PartialEq, Eq, Structural)]
pub enum RedirectPolicy {
    /// Follow at most this many.
    Limited(usize),
    /// Follow none.
    Never,
}

/// What the transport below a client is set up with.
#[derive(Debug)]
pub struct TransportSettings {
    pub timeout: Duration,
    pub connect_timeout: Duration,
    pub pool_idle_timeout: Duration,
    pub pool_max_idle_per_host: usize,
    pub user_agent: String,
    pub gzip: bool,
    pub brotli: bool,
    pub redirect: RedirectPolicy,
}

/// What a client is made of.
pub struct ClientView<I, Q, P> {
    pub config: HttpClientConfig,
    /// Combined interceptors, in the order in which they run.
    pub interceptors: Seq<I>,
    /// Request-only interceptors, in the order in which they run.
    pub request_interceptors: Seq<Q>,
    /// Response-only interceptors, in the order in which they run.
    pub response_interceptors: Seq<P>,
}

impl<I, Q, P> ClientView<I, Q, P> {
    /// A client without interceptors.
    pub open spec fn bare(config: HttpClientConfig) -> Self {
        ClientView {
            config,
            interceptors: Seq::<I>::empty(),
            request_interceptors: Seq::<Q>::empty(),
            response_interceptors: Seq::<P>::empty(),
        }
    }
}

/// HTTP client with retry, circuit breaker, and timeout support.
///
/// `I`, `Q` and `P` are the handles of combined, request-only and response-only
/// interceptors: whoever drives an execution runs what they stand for.
#[derive(Debug)]
pub struct HttpClient<I = (), Q = (), P = ()> {
    config: HttpClientConfig,
    interceptors: Vec<I>,
    request_interceptors: Vec<Q>,
    response_interceptors: Vec<P>,
}

impl<I, Q, P> View for HttpClient<I, Q, P> {
    type V = ClientView<I, Q, P>;

    closed spec fn view(&self) -> ClientView<I, Q, P> {
        ClientView {
            config: self.config,
            interceptors: self.interceptors@,
            request_interceptors: self.request_interceptors@,
            response_interceptors: self.response_interceptors@,
        }
    }
}

impl<I, Q, P> Default for HttpClient<I, Q, P> {
    fn default() -> (r: Self)
        ensures
            r@.config.is_default(),
            r@.interceptors.len() == 0,
            r@.request_interceptors.len() == 0,
            r@.response_interceptors.len() == 0,
    {
        HttpClient::default_client()
    }
}

impl<I: Clone, Q: Clone, P: Clone> Clone for HttpClient<I, Q, P> {
    fn clone(&self) -> (r: Self)
        ensures
            r@.config.same_as(self@.config),
            copies(self@.interceptors, r@.interceptors),
            copies(self@.request_interceptors, r@.request_interceptors),
            copies(self@.response_interceptors, r@.response_interceptors),
    {
        HttpClient {
            config: self.config.clone(),
            interceptors: self.interceptors.clone(),
            request_interceptors: self.request_interceptors.clone(),
            response_interceptors: self.response_interceptors.clone(),
        }
    }
}

/// The handles in `b` are clones of those in `a`, in the same order.
pub open spec fn copies<T: Clone>(a: Seq<T>, b: Seq<T>) -> bool {
    &&& a.len() == b.len()
    &&& forall|i: int| 0 <= i < a.len() ==> cloned::<T>(#[trigger] a[i], b[i])
}

/// A request builder that has been told nothing but where to go.
pub open spec fn fresh_builder(
    config: HttpClientConfig,
    method: Seq<char>,
    url: Seq<char>,
) -> BuilderView {
    BuilderView {
        config,
        method,
        url,
        headers: crate::header::no_headers(),
        query: Seq::empty(),
        body: None,
        timeout: None,
        skipped: Seq::empty(),
        full: false,
    }
}

impl<I, Q, P> HttpClient<I, Q, P> {
    /// Create a new HTTP client with the given configuration.
    pub fn new(config: HttpClientConfig) -> (r: Self)
        ensures
            r@ == ClientView::<I, Q, P>::bare(config),
    {
        HttpClient {
            config,
            interceptors: Vec::new(),
            request_interceptors: Vec::new(),
            response_interceptors: Vec::new(),
        }
    }

    /// Create a new HTTP client with default configuration.
    pub fn default_client() -> (r: Self)
        ensures
            r@.config.is_default(),
            r@.interceptors.len() == 0,
            r@.request_interceptors.len() == 0,
            r@.response_interceptors.len() == 0,
    {
        HttpClient::new(HttpClientConfig::default())
    }

    /// What to set up the transport with.
    pub fn transport_settings(&self) -> (r: TransportSettings)
        ensures
            r == (TransportSettings {
                timeout: self@.config.timeout,
                connect_timeout: self@.config.connect_timeout,
                pool_idle_timeout: self@.config.pool_idle_timeout,
                pool_max_idle_per_host: self@.config.pool_max_idle_per_host,
                user_agent: self@.config.user_agent,
                gzip: self@.config.gzip,
                brotli: self@.config.brotli,
                redirect: if self@.config.follow_redirects {
                    RedirectPolicy::Limited(self@.config.max_redirects)
                } else {
                    RedirectPolicy::Never
                },
            }),
    {
        TransportSettings {
            timeout: self.config.timeout,
            connect_timeout: self.config.connect_timeout,
            pool_idle_timeout: self.config.pool_idle_timeout,
            pool_max_idle_per_host: self.config.pool_max_idle_per_host,
            user_agent: self.config.user_agent.clone(),
            gzip: self.config.gzip,
            brotli: self.config.brotli,
            redirect: if self.config.follow_redirects {
                RedirectPolicy::Limited(self.config.max_redirects)
            } else {
                RedirectPolicy::Never
            },
        }
    }

    /// The circuit breaker that the client starts with, if one is configured.
    pub fn new_circuit_breaker(&self) -> (r: Option<CircuitBreaker>)
        ensures
            match self@.config.circuit_breaker {
                Some(config) => r is Some && r->0@ == BreakerView::fresh(config),
                None => r is None,
            },
    {
        match &self.config.circuit_breaker {
            Some(config) => Some(CircuitBreaker::new(config.clone())),
            None => None,
        }
    }

    /// Register a combined request/response interceptor.
    ///
    /// Its request phase runs once, before the first send attempt (and
    /// before any retries); its response phase runs once, on the final
    /// response returned from the retry/circuit-breaker machinery.
    pub fn with_interceptor(self, interceptor: I) -> (r: Self)
        ensures
            r@ == (ClientView { interceptors: self@.interceptors.push(interceptor), ..self@ }),
    {
        let mut interceptors = self.interceptors;
        interceptors.push(interceptor);
        HttpClient { interceptors, ..self }
    }

    /// Register a shared combined interceptor (e.g. one also held by the
    /// caller for inspection in tests).
    pub fn with_shared_interceptor(self, interceptor: I) -> (r: Self)
        ensures
            r@ == (ClientView { interceptors: self@.interceptors.push(interceptor), ..self@ }),
    {
        self.with_interceptor(interceptor)
    }

    /// Register a request-only interceptor. Runs once, before the first
    /// send attempt, after any combined interceptors' request phase.
    pub fn with_request_interceptor(self, interceptor: Q) -> (r: Self)
        ensures
            r@ == (ClientView {
                request_interceptors: self@.request_interceptors.push(interceptor),
                ..self@
            }),
    {
        let mut request_interceptors = self.request_interceptors;
        request_interceptors.push(interceptor);
        HttpClient { request_interceptors, ..self }
    }

    /// Register a response-only interceptor. Runs once, on the final
    /// response, after any combined interceptors' response phase.
    pub fn with_response_interceptor(self, interceptor: P) -> (r: Self)
        ensures
            r@ == (ClientView {
                response_interceptors: self@.response_interceptors.push(interceptor),
                ..self@
            }),
    {
        let mut response_interceptors = self.response_interceptors;
        response_interceptors.push(interceptor);
        HttpClient { response_interceptors, ..self }
    }

    /// The combined interceptors.
    pub fn interceptors(&self) -> (r: &Vec<I>)
        ensures
            r@ == self@.interceptors,
    {
        &self.interceptors
    }

    /// The request-only interceptors.
    pub fn request_interceptors(&self) -> (r: &Vec<Q>)
        ensures
            r@ == self@.request_interceptors,
    {
        &self.request_interceptors
    }

    /// The response-only interceptors.
    pub fn response_interceptors(&self) -> (r: &Vec<P>)
        ensures
            r@ == self@.response_interceptors,
    {
        &self.response_interceptors
    }

    /// Get the client configuration.
    pub fn config(&self) -> (r: &HttpClientConfig)
        ensures
            *r == self@.config,
    {
        &self.config
    }

    /// Create a request builder with a method given by its name.
    fn named_request(&self, method: &str, url: &str) -> (r: RequestBuilder<'_>)
        requires
            crate::header::is_token(method@),
        ensures
            r@ == fresh_builder(self@.config, method@, url@),
    {
        match method_named(method) {
            Some(method) => self.request(method, url),
            None => vstd::pervasive::unreached(),
        }
    }

    /// Create a GET request builder.
    pub fn get(&self, url: &str) -> (r: RequestBuilder<'_>)
        ensures
            r@ == fresh_builder(self@.config, "GET"@, url@),
    {
        proof {
            reveal_strlit("GET");
        }
        self.named_request("GET", url)
    }

    /// Create a POST request builder.
    pub fn post(&self, url: &str) -> (r: RequestBuilder<'_>)
        ensures
            r@ == fresh_builder(self@.config, "POST"@, url@),
    {
        proof {
            reveal_strlit("POST");
        }
        self.named_request("POST", url)
    }

    /// Create a PUT request builder.
    pub fn put(&self, url: &str) -> (r: RequestBuilder<'_>)
        ensures
            r@ == fresh_builder(self@.config, "PUT"@, url@),
    {
        proof {
            reveal_strlit("PUT");
        }
        self.named_request("PUT", url)
    }

    /// Create a PATCH request builder.
    pub fn patch(&self, url: &str) -> (r: RequestBuilder<'_>)
        ensures
            r@ == fresh_builder(self@.config, "PATCH"@, url@),
    {
        proof {
            reveal_strlit("PATCH");
        }
        self.named_request("PATCH", url)
    }

    /// Create a DELETE request builder.
    pub fn delete(&self, url: &str) -> (r: RequestBuilder<'_>)
        ensures
            r@ == fresh_builder(self@.config, "DELETE"@, url@),
    {
        proof {
            reveal_strlit("DELETE");
        }
        self.named_request("DELETE", url)
    }

    /// Create a HEAD request builder.
    pub fn head(&self, url: &str) -> (r: RequestBuilder<'_>)
        ensures
            r@ == fresh_builder(self@.config, "HEAD"@, url@),
    {
        proof {
            reveal_strlit("HEAD");
        }
        self.named_request("HEAD", url)
    }

    /// Create a request builder with a custom method.
    pub fn request(&self, method: Method, url: &str) -> (r: RequestBuilder<'_>)
        ensures
            r@ == fresh_builder(self@.config, crate::wire::method_text(method), url@),
    {
        RequestBuilder::new(&self.config, method, url)
    }
}

} // verus!
