//! An HTTP client core with retries, a circuit breaker and interceptors.
//!
//! Everything that decides is here: when a request is admitted, what goes out,
//! whether and when it is tried again, and what the caller is told. Sockets,
//! timers and user hooks are driven from outside: [`Execution`] says what to do
//! next and is told what came of it.

pub mod breaker_laws;
pub mod circuit_breaker;
pub mod client;
pub mod clock;
pub mod config;
pub mod config_laws;
pub mod error;
pub mod error_laws;
pub mod execution;
pub mod execution_laws;
pub mod header;
pub mod interceptor;
pub mod request;
pub mod request_laws;
pub mod response;
pub mod response_laws;
pub mod retry;
pub mod retry_laws;
pub mod text;
pub mod text_laws;
pub mod wire;

pub use circuit_breaker::{CircuitBreaker, CircuitBreakerConfig, CircuitState};
pub use client::{HttpClient, RedirectPolicy, TransportSettings};
pub use config::{HttpClientConfig, HttpClientConfigBuilder};
pub use error::{HttpClientError, TransportError};
pub use execution::{
    Action, Body, Event, Execution, Outgoing, Phase, RequestHook, RequestParts, ResponseHook,
};
pub use interceptor::{AuthInterceptor, LoggingInterceptor, RateLimitInterceptor};
pub use request::{Prepared, Request, RequestBuilder, RequestSpec};
pub use response::Response;
pub use retry::{
    BackoffStrategy, Delay, Multiplier, RetryConfig, RetryStrategy, ScaledDelay,
};
