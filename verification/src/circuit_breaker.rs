//! Circuit breaker: fail fast once a service keeps failing.

use std::time::{Duration, Instant};
use vstd::prelude::*;

verus! {

/// Circuit breaker state.
#[derive(Debug, Clone, Copy, PartialEq, Eq, Structural)]
#[non_exhaustive]
pub enum CircuitState {
    /// Circuit is closed, requests are allowed.
    Closed,
    /// Circuit is open, requests are rejected.
    Open,
    /// Circuit is half-open, limited requests are allowed for testing.
    HalfOpen,
}

/// Circuit breaker configuration.
#[derive(Debug)]
pub struct CircuitBreakerConfig {
    /// Number of consecutive failures to open the circuit.
    pub failure_threshold: u32,
    /// Number of successful requests to close the circuit.
    pub success_threshold: u32,
    /// Time to wait before attempting to close the circuit.
    pub reset_timeout: Duration,
    /// Number of requests to allow in half-open state.
    pub half_open_requests: u32,
    /// Time window for counting failures.
    pub failure_window: Duration,
}

impl Clone for CircuitBreakerConfig {
    fn clone(&self) -> (r: Self)
        ensures
            r == *self,
    {
        CircuitBreakerConfig {
            failure_threshold: self.failure_threshold,
            success_threshold: self.success_threshold,
            reset_timeout: self.reset_timeout,
            half_open_requests: self.half_open_requests,
            failure_window: self.failure_window,
        }
    }
}

impl Default for CircuitBreakerConfig {
    fn default() -> (r: Self)
        ensures
            r.failure_threshold == 5,
            r.success_threshold == 3,
            crate::clock::duration_nanos(r.reset_timeout) == 30 * crate::clock::nanos_per_second(),
            r.half_open_requests == 3,
            crate::clock::duration_nanos(r.failure_window) == 60 * crate::clock::nanos_per_second(),
    {
        CircuitBreakerConfig {
            failure_threshold: 5,
            success_threshold: 3,
            reset_timeout: Duration::from_secs(30),
            half_open_requests: 3,
            failure_window: Duration::from_secs(60),
        }
    }
}

impl CircuitBreakerConfig {
    /// Create a new circuit breaker config.
    pub fn new(failure_threshold: u32, reset_timeout: Duration) -> (r: Self)
        ensures
            r.failure_threshold == failure_threshold,
            r.success_threshold == 3,
            r.reset_timeout == reset_timeout,
            r.half_open_requests == 3,
            crate::clock::duration_nanos(r.failure_window) == 60 * crate::clock::nanos_per_second(),
    {
        let defaults = CircuitBreakerConfig::default();
        CircuitBreakerConfig { failure_threshold, reset_timeout, ..defaults }
    }

    /// Set the success threshold to close the circuit.
    pub fn with_success_threshold(self, threshold: u32) -> (r: Self)
        ensures
            r == (CircuitBreakerConfig { success_threshold: threshold, ..self }),
    {
        CircuitBreakerConfig { success_threshold: threshold, ..self }
    }

    /// Set the number of half-open requests.
    pub fn with_half_open_requests(self, count: u32) -> (r: Self)
        ensures
            r == (CircuitBreakerConfig { half_open_requests: count, ..self }),
    {
        CircuitBreakerConfig { half_open_requests: count, ..self }
    }

    /// Set the failure counting window.
    pub fn with_failure_window(self, window: Duration) -> (r: Self)
        ensures
            r == (CircuitBreakerConfig { failure_window: window, ..self }),
    {
        CircuitBreakerConfig { failure_window: window, ..self }
    }
}

/// What a circuit breaker knows.
pub struct BreakerView {
    pub config: CircuitBreakerConfig,
    pub state: CircuitState,
    /// Failures counted towards opening.
    pub failures: u32,
    /// Successes counted towards closing.
    pub successes: u32,
    /// Admission requests made while half-open.
    pub probes: u32,
    /// When the last failure was counted.
    pub last_failure: Option<Instant>,
    /// When the circuit opened, while it has not closed again.
    pub opened_at: Option<Instant>,
}

impl BreakerView {
    /// A fresh breaker: closed, with nothing counted.
    pub open spec fn fresh(config: CircuitBreakerConfig) -> Self {
        BreakerView {
            config,
            state: CircuitState::Closed,
            failures: 0,
            successes: 0,
            probes: 0,
            last_failure: None,
            opened_at: None,
        }
    }

    /// What holds of every breaker at all times.
    pub open spec fn wf(self) -> bool {
        &&& self.state is Closed ==> {
            &&& self.failures < self.config.failure_threshold || self.failures == 0
            &&& self.successes == 0
            &&& self.probes == 0
            &&& self.opened_at is None
        }
        &&& !(self.state is Closed) ==> self.failures >= self.config.failure_threshold
        &&& self.state is Open ==> {
            &&& self.successes == 0
            &&& self.probes == 0
            &&& self.opened_at is Some
        }
        &&& self.state is HalfOpen ==> {
            &&& self.successes < self.config.success_threshold || self.successes == 0
            &&& self.opened_at is Some
        }
    }

    /// The circuit is open and has been for at least the reset timeout.
    pub open spec fn rest_is_over(self, now: Instant) -> bool {
        &&& self.state is Open
        &&& self.opened_at is Some
        &&& crate::clock::elapsed_nanos(now, self.opened_at->0) >= crate::clock::duration_nanos(
            self.config.reset_timeout,
        )
    }

    /// The breaker as anyone looking at it at `now` finds it: an open circuit
    /// whose reset timeout has passed is half-open.
    pub open spec fn at(self, now: Instant) -> Self {
        if self.rest_is_over(now) {
            BreakerView { state: CircuitState::HalfOpen, successes: 0, probes: 0, ..self }
        } else {
            self
        }
    }

    /// Whether the breaker, as found, lets one more request through.
    pub open spec fn admits(self) -> bool {
        match self.state {
            CircuitState::Closed => true,
            CircuitState::Open => false,
            CircuitState::HalfOpen => self.probes < self.config.half_open_requests,
        }
    }

    /// The breaker, as found, after it was asked to let one request through.
    pub open spec fn asked(self) -> Self {
        if self.state is HalfOpen {
            BreakerView {
                probes: if self.probes == u32::MAX {
                    u32::MAX
                } else {
                    (self.probes + 1) as u32
                },
                ..self
            }
        } else {
            self
        }
    }

    /// The circuit opened at `now`.
    pub open spec fn opened(self, now: Instant) -> Self {
        BreakerView {
            state: CircuitState::Open,
            opened_at: Some(now),
            probes: 0,
            successes: 0,
            ..self
        }
    }

    /// The circuit closed.
    pub open spec fn closed(self) -> Self {
        BreakerView {
            state: CircuitState::Closed,
            opened_at: None,
            failures: 0,
            successes: 0,
            probes: 0,
            ..self
        }
    }

    /// The breaker after a success.
    pub open spec fn succeeded(self) -> Self {
        match self.state {
            CircuitState::Closed => BreakerView { failures: 0, ..self },
            CircuitState::HalfOpen => if self.successes + 1 >= self.config.success_threshold {
                self.closed()
            } else {
                BreakerView { successes: (self.successes + 1) as u32, ..self }
            },
            CircuitState::Open => self,
        }
    }

    /// The last counted failure lies further back than the failure window.
    pub open spec fn window_is_over(self, now: Instant) -> bool {
        &&& self.last_failure is Some
        &&& crate::clock::elapsed_nanos(now, self.last_failure->0) > crate::clock::duration_nanos(
            self.config.failure_window,
        )
    }

    /// The breaker after a failure at `now`: it is one more in a row, or the
    /// first of a new row where the failure window is over.
    pub open spec fn failed(self, now: Instant) -> Self {
        match self.state {
            CircuitState::Closed => {
                let failures = if self.window_is_over(now) {
                    1
                } else {
                    self.failures + 1
                };
                let counted = BreakerView {
                    failures: failures as u32,
                    last_failure: Some(now),
                    ..self
                };
                if failures >= self.config.failure_threshold {
                    counted.opened(now)
                } else {
                    counted
                }
            },
            CircuitState::HalfOpen => self.opened(now),
            CircuitState::Open => self,
        }
    }

    /// The breaker after a reset: closed, and unchanged where it already was.
    pub open spec fn after_reset(self) -> Self {
        if self.state is Closed {
            self
        } else {
            self.closed()
        }
    }
}

/// Circuit breaker implementation.
#[derive(Debug)]
pub struct CircuitBreaker {
    config: CircuitBreakerConfig,
    state: CircuitState,
    failure_count: u32,
    success_count: u32,
    half_open_count: u32,
    /// When the most recent failure was recorded, used to restart the failure
    /// count once `failure_window` has elapsed since then.
    last_failure_time: Option<Instant>,
    opened_at: Option<Instant>,
}

impl View for CircuitBreaker {
    type V = BreakerView;

    closed spec fn view(&self) -> BreakerView {
        BreakerView {
            config: self.config,
            state: self.state,
            failures: self.failure_count,
            successes: self.success_count,
            probes: self.half_open_count,
            last_failure: self.last_failure_time,
            opened_at: self.opened_at,
        }
    }
}

impl CircuitBreaker {
    #[verifier::type_invariant]
    spec fn counts_are_sound(self) -> bool {
        self@.wf()
    }

    /// Create a new circuit breaker.
    pub fn new(config: CircuitBreakerConfig) -> (r: Self)
        ensures
            r@ == BreakerView::fresh(config),
    {
        CircuitBreaker {
            config,
            state: CircuitState::Closed,
            failure_count: 0,
            success_count: 0,
            half_open_count: 0,
            last_failure_time: None,
            opened_at: None,
        }
    }

    /// Get the circuit state at `now`.
    pub fn state_at(&mut self, now: Instant) -> (r: CircuitState)
        ensures
            final(self)@ == old(self)@.at(now),
            r == final(self)@.state,
            final(self)@.wf(),
    {
        self.maybe_transition_to_half_open(now);
        proof {
            use_type_invariant(&*self);
        }
        self.state
    }

    /// Get the current circuit state.
    pub fn state(&mut self) -> (r: CircuitState)
        ensures
            exists|now: Instant| final(self)@ == #[trigger] old(self)@.at(now),
            r == final(self)@.state,
            final(self)@.wf(),
    {
        self.state_at(Instant::now())
    }

    /// Check if a request is allowed at `now`.
    pub fn is_allowed_at(&mut self, now: Instant) -> (r: bool)
        ensures
            r == old(self)@.at(now).admits(),
            final(self)@ == old(self)@.at(now).asked(),
            final(self)@.wf(),
    {
        self.maybe_transition_to_half_open(now);
        proof {
            use_type_invariant(&*self);
        }
        match self.state {
            CircuitState::Closed => true,
            CircuitState::Open => false,
            CircuitState::HalfOpen => {
                let count = self.half_open_count;
                self.half_open_count = count.saturating_add(1);
                count < self.config.half_open_requests
            },
        }
    }

    /// Check if a request is allowed.
    pub fn is_allowed(&mut self) -> (r: bool)
        ensures
            exists|now: Instant|
                r == (#[trigger] old(self)@.at(now)).admits() && final(self)@ == old(self)@.at(
                    now,
                ).asked(),
            final(self)@.wf(),
    {
        self.is_allowed_at(Instant::now())
    }

    /// Record a successful request.
    pub fn record_success(&mut self)
        ensures
            final(self)@ == old(self)@.succeeded(),
            final(self)@.wf(),
    {
        proof {
            use_type_invariant(&*self);
        }
        match self.state {
            CircuitState::Closed => {
                self.failure_count = 0;
            },
            CircuitState::HalfOpen => {
                let successes: u32 = self.success_count + 1;
                if successes >= self.config.success_threshold {
                    self.close();
                } else {
                    self.success_count = successes;
                }
            },
            CircuitState::Open => {},
        }
    }

    /// Record a failed request at `now`.
    pub fn record_failure_at(&mut self, now: Instant)
        ensures
            final(self)@ == old(self)@.failed(now),
            final(self)@.wf(),
    {
        proof {
            use_type_invariant(&*self);
        }
        match self.state {
            CircuitState::Closed => {
                let should_reset = match self.last_failure_time {
                    Some(last) => now.duration_since(last).as_nanos()
                        > self.config.failure_window.as_nanos(),
                    None => false,
                };
                let failures: u32 = if should_reset {
                    1
                } else {
                    self.failure_count + 1
                };
                if failures >= self.config.failure_threshold {
                    self.open(failures, Some(now), now);
                } else {
                    self.failure_count = failures;
                    self.last_failure_time = Some(now);
                }
            },
            CircuitState::HalfOpen => {
                // Any failure in half-open state reopens the circuit
                self.open(self.failure_count, self.last_failure_time, now);
            },
            CircuitState::Open => {},
        }
    }

    /// Record a failed request.
    pub fn record_failure(&mut self)
        ensures
            exists|now: Instant| final(self)@ == #[trigger] old(self)@.failed(now),
            final(self)@.wf(),
    {
        self.record_failure_at(Instant::now())
    }

    /// Open the circuit, after as many failures and with the last one at that
    /// time.
    fn open(&mut self, failures: u32, last_failure: Option<Instant>, now: Instant)
        requires
            !(old(self)@.state is Open),
            failures >= old(self)@.config.failure_threshold,
        ensures
            final(self)@ == (BreakerView { failures, last_failure, ..old(self)@ }).opened(now),
    {
        let config = self.config.clone();
        *self = CircuitBreaker {
            config,
            state: CircuitState::Open,
            failure_count: failures,
            success_count: 0,
            half_open_count: 0,
            last_failure_time: last_failure,
            opened_at: Some(now),
        };
    }

    /// Close the circuit.
    fn close(&mut self)
        ensures
            final(self)@ == old(self)@.after_reset(),
    {
        match self.state {
            CircuitState::Closed => {},
            _ => {
                let config = self.config.clone();
                *self = CircuitBreaker {
                    config,
                    state: CircuitState::Closed,
                    failure_count: 0,
                    success_count: 0,
                    half_open_count: 0,
                    last_failure_time: self.last_failure_time,
                    opened_at: None,
                };
            },
        }
    }

    /// Transition to half-open if timeout has elapsed.
    fn maybe_transition_to_half_open(&mut self, now: Instant)
        ensures
            final(self)@ == old(self)@.at(now),
    {
        proof {
            use_type_invariant(&*self);
        }
        match self.state {
            CircuitState::Open => {},
            _ => {
                return ;
            },
        }
        if let Some(opened) = self.opened_at {
            if now.duration_since(opened).as_nanos() >= self.config.reset_timeout.as_nanos() {
                let config = self.config.clone();
                *self = CircuitBreaker {
                    config,
                    state: CircuitState::HalfOpen,
                    failure_count: self.failure_count,
                    success_count: 0,
                    half_open_count: 0,
                    last_failure_time: self.last_failure_time,
                    opened_at: self.opened_at,
                };
            }
        }
    }

    /// Get failure count.
    pub fn failure_count(&self) -> (r: u32)
        ensures
            r == self@.failures,
    {
        self.failure_count
    }

    /// Get success count (in half-open state).
    pub fn success_count(&self) -> (r: u32)
        ensures
            r == self@.successes,
    {
        self.success_count
    }

    /// Reset the circuit breaker to closed state.
    pub fn reset(&mut self)
        ensures
            final(self)@ == old(self)@.after_reset(),
            final(self)@.wf(),
    {
        self.close();
        proof {
            use_type_invariant(&*self);
        }
    }
}

} // verus!
