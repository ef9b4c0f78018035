//! What a client starts with.

use crate::client::ClientView;
use crate::config::HttpClientConfig;
use vstd::prelude::*;

verus! {

/// The default configuration: half a minute for a request, ten seconds to connect,
/// connections kept for a minute and a half, no retries and no circuit breaker.
pub proof fn law_the_default_configuration(config: HttpClientConfig)
    requires
        config.is_default(),
    ensures
        config.base_url is None,
        crate::clock::duration_nanos(config.timeout) == 30_000_000_000,
        crate::clock::duration_nanos(config.connect_timeout) == 10_000_000_000,
        crate::clock::duration_nanos(config.pool_idle_timeout) == 90_000_000_000,
        config.pool_max_idle_per_host == 32,
        config.retry is None,
        config.circuit_breaker is None,
        config.default_headers@.len() == 0,
        config.user_agent@ == "armature-http-client/0.1.0"@,
        config.gzip,
        config.brotli,
        config.follow_redirects,
        config.max_redirects == 10,
{
}

/// A copy of a configuration says the same in every point.
pub proof fn law_a_copy_says_the_same(config: HttpClientConfig, copy: HttpClientConfig)
    requires
        copy.same_as(config),
    ensures
        copy.base_url == config.base_url,
        copy.timeout == config.timeout,
        copy.connect_timeout == config.connect_timeout,
        copy.circuit_breaker == config.circuit_breaker,
        copy.pool_idle_timeout == config.pool_idle_timeout,
        copy.pool_max_idle_per_host == config.pool_max_idle_per_host,
        copy.default_headers@ == config.default_headers@,
        copy.user_agent == config.user_agent,
        copy.gzip == config.gzip,
        copy.brotli == config.brotli,
        copy.follow_redirects == config.follow_redirects,
        copy.max_redirects == config.max_redirects,
        copy.retry is Some <==> config.retry is Some,
        config.retry matches Some(retry) ==> {
            &&& copy.retry->0.max_attempts == retry.max_attempts
            &&& copy.retry->0.backoff == retry.backoff
            &&& copy.retry->0.retry_status_codes@ == retry.retry_status_codes@
            &&& copy.retry->0.retry_on_connection_error == retry.retry_on_connection_error
            &&& copy.retry->0.retry_on_timeout == retry.retry_on_timeout
            &&& copy.retry->0.max_retry_time == retry.max_retry_time
        },
{
}

/// A new client has its configuration and no interceptors.
pub proof fn law_a_new_client_has_no_interceptors<I, Q, P>(config: HttpClientConfig)
    ensures
        ClientView::<I, Q, P>::bare(config).config == config,
        ClientView::<I, Q, P>::bare(config).interceptors.len() == 0,
        ClientView::<I, Q, P>::bare(config).request_interceptors.len() == 0,
        ClientView::<I, Q, P>::bare(config).response_interceptors.len() == 0,
{
}

/// A new request builder knows where the request goes and nothing else.
pub proof fn law_a_new_builder_knows_only_where_to_go(
    config: HttpClientConfig,
    method: Seq<char>,
    url: Seq<char>,
    name: Seq<char>,
)
    ensures
        ({
            let builder = crate::client::fresh_builder(config, method, url);
            &&& builder.config == config
            &&& builder.method == method
            &&& builder.url == url
            &&& !builder.headers.dom().contains(name)
            &&& builder.query.len() == 0
            &&& builder.body is None
            &&& builder.timeout is None
            &&& builder.skipped.len() == 0
            &&& !builder.full
        }),
{
}

/// The clones of interceptors stand in the order of what they were cloned from.
pub proof fn law_clones_keep_their_order<T: Clone>(a: Seq<T>, b: Seq<T>, i: int)
    requires
        crate::client::copies(a, b),
    ensures
        a.len() == b.len(),
        0 <= i < a.len() ==> cloned::<T>(a[i], b[i]),
{
}

} // verus!
