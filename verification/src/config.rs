//! HTTP client configuration.

use crate::circuit_breaker::CircuitBreakerConfig;
use crate::retry::RetryConfig;
use std::time::Duration;
use vstd::prelude::*;

verus! {

/// HTTP client configuration.
#[derive(Debug)]
pub struct HttpClientConfig {
    /// Base URL for all requests.
    pub base_url: Option<String>,
    /// Default request timeout.
    pub timeout: Duration,
    /// Connection timeout.
    pub connect_timeout: Duration,
    /// Retry configuration.
    pub retry: Option<RetryConfig>,
    /// Circuit breaker configuration.
    pub circuit_breaker: Option<CircuitBreakerConfig>,
    /// How long an idle connection is kept.
    pub pool_idle_timeout: Duration,
    /// Maximum idle connections.
    pub pool_max_idle_per_host: usize,
    /// Default headers for all requests.
    pub default_headers: Vec<(String, String)>,
    /// User agent string.
    pub user_agent: String,
    /// Enable gzip compression.
    pub gzip: bool,
    /// Enable brotli compression.
    pub brotli: bool,
    /// Follow redirects.
    pub follow_redirects: bool,
    /// Maximum redirects to follow.
    pub max_redirects: usize,
}

impl HttpClientConfig {
    /// The configuration that a client has unless told otherwise.
    pub open spec fn is_default(self) -> bool {
        &&& self.base_url is None
        &&& crate::retry::is_seconds(self.timeout, 30)
        &&& crate::retry::is_seconds(self.connect_timeout, 10)
        &&& self.retry is None
        &&& self.circuit_breaker is None
        &&& crate::retry::is_seconds(self.pool_idle_timeout, 90)
        &&& self.pool_max_idle_per_host == 32
        &&& self.default_headers@.len() == 0
        &&& self.user_agent@ == "armature-http-client/0.1.0"@
        &&& self.gzip
        &&& self.brotli
        &&& self.follow_redirects
        &&& self.max_redirects == 10
    }

    /// The two configurations say the same.
    pub open spec fn same_as(self, other: Self) -> bool {
        &&& self.default_headers@ == other.default_headers@
        &&& match other.retry {
            Some(retry) => {
                &&& self.retry is Some
                &&& self.retry->0.retry_status_codes@ == retry.retry_status_codes@
                &&& self.retry->0 == (RetryConfig {
                    retry_status_codes: self.retry->0.retry_status_codes,
                    ..retry
                })
            },
            None => self.retry is None,
        }
        &&& self == (HttpClientConfig {
            default_headers: self.default_headers,
            retry: self.retry,
            ..other
        })
    }

    /// The default headers as pairs of name and value.
    pub open spec fn header_pairs(self) -> Seq<(Seq<char>, Seq<char>)> {
        self.default_headers@.map_values(|h: (String, String)| (h.0@, h.1@))
    }
}

impl Clone for HttpClientConfig {
    fn clone(&self) -> (r: Self)
        ensures
            r.same_as(*self),
    {
        let mut default_headers: Vec<(String, String)> = Vec::new();
        let mut i: usize = 0;
        while i < self.default_headers.len()
            invariant
                i <= self.default_headers@.len(),
                default_headers@ == self.default_headers@.take(i as int),
            decreases self.default_headers@.len() - i,
        {
            let copy = (self.default_headers[i].0.clone(), self.default_headers[i].1.clone());
            default_headers.push(copy);
            assert(default_headers@ =~= self.default_headers@.take(i + 1));
            i = i + 1;
        }
        assert(default_headers@ =~= self.default_headers@);
        HttpClientConfig {
            base_url: match &self.base_url {
                Some(url) => Some(url.clone()),
                None => None,
            },
            timeout: self.timeout,
            connect_timeout: self.connect_timeout,
            retry: match &self.retry {
                Some(retry) => Some(retry.clone()),
                None => None,
            },
            circuit_breaker: match &self.circuit_breaker {
                Some(config) => Some(config.clone()),
                None => None,
            },
            pool_idle_timeout: self.pool_idle_timeout,
            pool_max_idle_per_host: self.pool_max_idle_per_host,
            default_headers,
            user_agent: self.user_agent.clone(),
            gzip: self.gzip,
            brotli: self.brotli,
            follow_redirects: self.follow_redirects,
            max_redirects: self.max_redirects,
        }
    }
}

impl Default for HttpClientConfig {
    fn default() -> (r: Self)
        ensures
            r.is_default(),
    {
        HttpClientConfig {
            base_url: None,
            timeout: Duration::from_secs(30),
            connect_timeout: Duration::from_secs(10),
            retry: None,
            circuit_breaker: None,
            pool_idle_timeout: Duration::from_secs(90),
            pool_max_idle_per_host: 32,
            default_headers: Vec::new(),
            user_agent: "armature-http-client/0.1.0".to_string(),
            gzip: true,
            brotli: true,
            follow_redirects: true,
            max_redirects: 10,
        }
    }
}

impl HttpClientConfig {
    /// Create a new configuration builder.
    pub fn builder() -> (r: HttpClientConfigBuilder)
        ensures
            r@.is_default(),
    {
        HttpClientConfigBuilder { config: HttpClientConfig::default() }
    }
}

/// Builder for HTTP client configuration.
#[derive(Debug)]
pub struct HttpClientConfigBuilder {
    config: HttpClientConfig,
}

impl View for HttpClientConfigBuilder {
    type V = HttpClientConfig;

    closed spec fn view(&self) -> HttpClientConfig {
        self.config
    }
}

impl Default for HttpClientConfigBuilder {
    fn default() -> (r: Self)
        ensures
            r@.is_default(),
    {
        HttpClientConfig::builder()
    }
}

impl HttpClientConfigBuilder {
    /// Set the base URL for all requests.
    pub fn base_url(self, url: &str) -> (r: Self)
        ensures
            r@.base_url is Some && r@.base_url->0@ == url@,
            r@ == (HttpClientConfig { base_url: r@.base_url, ..self@ }),
    {
        HttpClientConfigBuilder {
            config: HttpClientConfig { base_url: Some(url.to_string()), ..self.config },
        }
    }

    /// Set the default request timeout.
    pub fn timeout(self, timeout: Duration) -> (r: Self)
        ensures
            r@ == (HttpClientConfig { timeout, ..self@ }),
    {
        HttpClientConfigBuilder { config: HttpClientConfig { timeout, ..self.config } }
    }

    /// Set the connection timeout.
    pub fn connect_timeout(self, timeout: Duration) -> (r: Self)
        ensures
            r@ == (HttpClientConfig { connect_timeout: timeout, ..self@ }),
    {
        HttpClientConfigBuilder {
            config: HttpClientConfig { connect_timeout: timeout, ..self.config },
        }
    }

    /// Set retry configuration.
    pub fn retry(self, config: RetryConfig) -> (r: Self)
        ensures
            r@ == (HttpClientConfig { retry: Some(config), ..self@ }),
    {
        HttpClientConfigBuilder { config: HttpClientConfig { retry: Some(config), ..self.config } }
    }

    /// Set circuit breaker configuration.
    pub fn circuit_breaker(self, config: CircuitBreakerConfig) -> (r: Self)
        ensures
            r@ == (HttpClientConfig { circuit_breaker: Some(config), ..self@ }),
    {
        HttpClientConfigBuilder {
            config: HttpClientConfig { circuit_breaker: Some(config), ..self.config },
        }
    }

    /// Set the connection pool idle timeout.
    pub fn pool_idle_timeout(self, timeout: Duration) -> (r: Self)
        ensures
            r@ == (HttpClientConfig { pool_idle_timeout: timeout, ..self@ }),
    {
        HttpClientConfigBuilder {
            config: HttpClientConfig { pool_idle_timeout: timeout, ..self.config },
        }
    }

    /// Set the maximum idle connections per host.
    pub fn pool_max_idle_per_host(self, max: usize) -> (r: Self)
        ensures
            r@ == (HttpClientConfig { pool_max_idle_per_host: max, ..self@ }),
    {
        HttpClientConfigBuilder {
            config: HttpClientConfig { pool_max_idle_per_host: max, ..self.config },
        }
    }

    /// Add a default header for all requests.
    pub fn default_header(self, name: &str, value: &str) -> (r: Self)
        ensures
            r@.header_pairs() == self@.header_pairs().push((name@, value@)),
            r@.default_headers@.drop_last() == self@.default_headers@,
            r@ == (HttpClientConfig { default_headers: r@.default_headers, ..self@ }),
    {
        let mut config = self.config;
        config.default_headers.push((name.to_string(), value.to_string()));
        assert(config.header_pairs() =~= self@.header_pairs().push((name@, value@)));
        assert(config.default_headers@.drop_last() =~= self@.default_headers@);
        HttpClientConfigBuilder { config }
    }

    /// Set the user agent string.
    pub fn user_agent(self, user_agent: &str) -> (r: Self)
        ensures
            r@.user_agent@ == user_agent@,
            r@ == (HttpClientConfig { user_agent: r@.user_agent, ..self@ }),
    {
        HttpClientConfigBuilder {
            config: HttpClientConfig { user_agent: user_agent.to_string(), ..self.config },
        }
    }

    /// Enable or disable gzip compression.
    pub fn gzip(self, enable: bool) -> (r: Self)
        ensures
            r@ == (HttpClientConfig { gzip: enable, ..self@ }),
    {
        HttpClientConfigBuilder { config: HttpClientConfig { gzip: enable, ..self.config } }
    }

    /// Enable or disable brotli compression.
    pub fn brotli(self, enable: bool) -> (r: Self)
        ensures
            r@ == (HttpClientConfig { brotli: enable, ..self@ }),
    {
        HttpClientConfigBuilder { config: HttpClientConfig { brotli: enable, ..self.config } }
    }

    /// Enable or disable following redirects.
    pub fn follow_redirects(self, enable: bool) -> (r: Self)
        ensures
            r@ == (HttpClientConfig { follow_redirects: enable, ..self@ }),
    {
        HttpClientConfigBuilder {
            config: HttpClientConfig { follow_redirects: enable, ..self.config },
        }
    }

    /// Set the maximum number of redirects to follow.
    pub fn max_redirects(self, max: usize) -> (r: Self)
        ensures
            r@ == (HttpClientConfig { max_redirects: max, ..self@ }),
    {
        HttpClientConfigBuilder { config: HttpClientConfig { max_redirects: max, ..self.config } }
    }

    /// Build the configuration.
    pub fn build(self) -> (r: HttpClientConfig)
        ensures
            r == self@,
    {
        self.config
    }
}

} // verus!
