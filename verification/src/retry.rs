//! Retry configuration and strategies.

use crate::clock::shorter;
use crate::error::HttpClientError;
use std::time::Duration;
use vstd::arithmetic::power::*;
use vstd::prelude::*;

verus! {

/// Retry configuration.
#[derive(Debug)]
pub struct RetryConfig {
    /// Maximum number of retry attempts.
    pub max_attempts: u32,
    /// Backoff strategy.
    pub backoff: BackoffStrategy,
    /// Status codes that should trigger a retry.
    pub retry_status_codes: Vec<u16>,
    /// Whether to retry on connection errors.
    pub retry_on_connection_error: bool,
    /// Whether to retry on timeout errors.
    pub retry_on_timeout: bool,
    /// Maximum total time for all retries.
    pub max_retry_time: Option<Duration>,
}

impl Clone for RetryConfig {
    fn clone(&self) -> (r: Self)
        ensures
            r.retry_status_codes@ == self.retry_status_codes@,
            r == (RetryConfig { retry_status_codes: r.retry_status_codes, ..*self }),
    {
        let codes = self.retry_status_codes.clone();
        assert(codes@ =~= self.retry_status_codes@);
        RetryConfig {
            max_attempts: self.max_attempts,
            backoff: self.backoff.clone(),
            retry_status_codes: codes,
            retry_on_connection_error: self.retry_on_connection_error,
            retry_on_timeout: self.retry_on_timeout,
            max_retry_time: self.max_retry_time,
        }
    }
}

/// The status codes that are retried unless others are set.
pub open spec fn default_status_codes() -> Seq<u16> {
    seq![408, 429, 500, 502, 503, 504]
}

/// `d` is `secs` seconds.
pub open spec fn is_seconds(d: Duration, secs: nat) -> bool {
    crate::clock::duration_nanos(d) == secs * crate::clock::nanos_per_second()
}

impl RetryConfig {
    /// Everything but the number of attempts and the backoff is at its default.
    pub open spec fn has_default_rules(self) -> bool {
        &&& self.retry_status_codes@ == default_status_codes()
        &&& self.retry_on_connection_error
        &&& self.retry_on_timeout
        &&& self.max_retry_time is Some
        &&& is_seconds(self.max_retry_time->0, 60)
    }
}

impl Default for RetryConfig {
    fn default() -> (r: Self)
        ensures
            r.max_attempts == 3,
            match r.backoff {
                BackoffStrategy::Exponential { initial, max, multiplier } => {
                    &&& crate::clock::duration_nanos(initial) == 100
                        * crate::clock::nanos_per_milli()
                    &&& is_seconds(max, 10)
                    &&& multiplier == Multiplier::Whole(2)
                },
                _ => false,
            },
            r.has_default_rules(),
    {
        let codes: Vec<u16> = vec![408, 429, 500, 502, 503, 504];
        assert(codes@ =~= default_status_codes());
        RetryConfig {
            max_attempts: 3,
            backoff: BackoffStrategy::Exponential {
                initial: Duration::from_millis(100),
                max: Duration::from_secs(10),
                multiplier: Multiplier::Whole(2),
            },
            retry_status_codes: codes,
            retry_on_connection_error: true,
            retry_on_timeout: true,
            max_retry_time: Some(Duration::from_secs(60)),
        }
    }
}

impl RetryConfig {
    /// Create a retry config with exponential backoff.
    pub fn exponential(max_attempts: u32, initial_delay: Duration) -> (r: Self)
        ensures
            r.max_attempts == max_attempts,
            match r.backoff {
                BackoffStrategy::Exponential { initial, max, multiplier } => {
                    &&& initial == initial_delay
                    &&& is_seconds(max, 30)
                    &&& multiplier == Multiplier::Whole(2)
                },
                _ => false,
            },
            r.has_default_rules(),
    {
        let defaults = RetryConfig::default();
        RetryConfig {
            max_attempts,
            backoff: BackoffStrategy::Exponential {
                initial: initial_delay,
                max: Duration::from_secs(30),
                multiplier: Multiplier::Whole(2),
            },
            ..defaults
        }
    }

    /// Create a retry config with linear backoff.
    pub fn linear(max_attempts: u32, delay: Duration) -> (r: Self)
        ensures
            r.max_attempts == max_attempts,
            match r.backoff {
                BackoffStrategy::Linear { delay: step, max } => step == delay && is_seconds(
                    max,
                    30,
                ),
                _ => false,
            },
            r.has_default_rules(),
    {
        let defaults = RetryConfig::default();
        RetryConfig {
            max_attempts,
            backoff: BackoffStrategy::Linear { delay, max: Duration::from_secs(30) },
            ..defaults
        }
    }

    /// Create a retry config with constant delay.
    pub fn constant(max_attempts: u32, delay: Duration) -> (r: Self)
        ensures
            r.max_attempts == max_attempts,
            r.backoff == BackoffStrategy::Constant(delay),
            r.has_default_rules(),
    {
        let defaults = RetryConfig::default();
        RetryConfig { max_attempts, backoff: BackoffStrategy::Constant(delay), ..defaults }
    }

    /// Create a retry config with no delay.
    pub fn immediate(max_attempts: u32) -> (r: Self)
        ensures
            r.max_attempts == max_attempts,
            r.backoff == BackoffStrategy::Immediate,
            r.has_default_rules(),
    {
        let defaults = RetryConfig::default();
        RetryConfig { max_attempts, backoff: BackoffStrategy::Immediate, ..defaults }
    }

    /// Set additional status codes to retry on.
    pub fn with_status_codes(self, codes: Vec<u16>) -> (r: Self)
        ensures
            r.retry_status_codes@ == self.retry_status_codes@ + codes@,
            r == (RetryConfig { retry_status_codes: r.retry_status_codes, ..self }),
    {
        let mut all = self.retry_status_codes;
        let mut codes = codes;
        all.append(&mut codes);
        RetryConfig { retry_status_codes: all, ..self }
    }

    /// Disable retry on connection errors.
    pub fn no_retry_on_connection(self) -> (r: Self)
        ensures
            r == (RetryConfig { retry_on_connection_error: false, ..self }),
    {
        RetryConfig { retry_on_connection_error: false, ..self }
    }

    /// Disable retry on timeout errors.
    pub fn no_retry_on_timeout(self) -> (r: Self)
        ensures
            r == (RetryConfig { retry_on_timeout: false, ..self }),
    {
        RetryConfig { retry_on_timeout: false, ..self }
    }

    /// Set maximum total retry time.
    pub fn with_max_retry_time(self, duration: Duration) -> (r: Self)
        ensures
            r == (RetryConfig { max_retry_time: Some(duration), ..self }),
    {
        RetryConfig { max_retry_time: Some(duration), ..self }
    }

    /// Calculate delay for a given attempt.
    pub fn delay_for_attempt(&self, attempt: u32) -> (d: Duration)
        requires
            self.backoff.has_delay_for(attempt),
        ensures
            crate::clock::duration_nanos(d) == self.backoff.delay_nanos(attempt as nat),
    {
        self.backoff.delay_for_attempt(attempt)
    }

    /// Check if a status code should trigger a retry.
    pub fn should_retry_status(&self, status: u16) -> (r: bool)
        ensures
            r == self.retry_status_codes@.contains(status),
    {
        let mut i: usize = 0;
        while i < self.retry_status_codes.len()
            invariant
                i <= self.retry_status_codes@.len(),
                forall|k: int| 0 <= k < i ==> self.retry_status_codes@[k] != status,
            decreases self.retry_status_codes@.len() - i,
        {
            if self.retry_status_codes[i] == status {
                return true;
            }
            i = i + 1;
        }
        false
    }
}

/// What an exponential delay is multiplied by from one attempt to the next.
#[derive(Debug, Clone, Copy, PartialEq, Eq, Structural)]
pub enum Multiplier {
    /// A whole number, typically 2.
    Whole(u32),
    /// Any other number, given by the bits of its IEEE 754 double.
    Real(u64),
}

/// Backoff strategy for retries.
#[derive(Debug)]
#[non_exhaustive]
pub enum BackoffStrategy {
    /// No delay between retries.
    Immediate,
    /// Constant delay between retries.
    Constant(Duration),
    /// Linear backoff: delay increases by a fixed amount.
    Linear {
        /// Delay increment per attempt.
        delay: Duration,
        /// Maximum delay.
        max: Duration,
    },
    /// Exponential backoff: delay doubles each attempt.
    Exponential {
        /// Initial delay.
        initial: Duration,
        /// Maximum delay.
        max: Duration,
        /// Multiplier (typically 2).
        multiplier: Multiplier,
    },
}

impl Clone for BackoffStrategy {
    fn clone(&self) -> (r: Self)
        ensures
            r == *self,
    {
        match self {
            BackoffStrategy::Immediate => BackoffStrategy::Immediate,
            BackoffStrategy::Constant(d) => BackoffStrategy::Constant(*d),
            BackoffStrategy::Linear { delay, max } => BackoffStrategy::Linear {
                delay: *delay,
                max: *max,
            },
            BackoffStrategy::Exponential { initial, max, multiplier } =>
                BackoffStrategy::Exponential {
                initial: *initial,
                max: *max,
                multiplier: *multiplier,
            },
        }
    }
}

/// The delay before an attempt.
#[derive(Debug)]
pub enum Delay {
    /// The delay itself.
    Fixed(Duration),
    /// A delay whose length is a product of real numbers.
    Scaled(ScaledDelay),
}

/// A delay of `millis` milliseconds times a real multiplier to the power of
/// `exponent`, but no longer than `max`.
#[derive(Debug)]
pub struct ScaledDelay {
    /// The initial delay in whole milliseconds.
    pub millis: u128,
    /// The bits of the multiplier as an IEEE 754 double.
    pub multiplier: u64,
    /// The power that the multiplier is raised to.
    pub exponent: i32,
    /// Maximum delay.
    pub max: Duration,
}

impl ScaledDelay {
    /// The delay, given its length in milliseconds before it is limited.
    pub fn resolve(&self, millis: u64) -> (d: Duration)
        ensures
            crate::clock::duration_nanos(d) == crate::clock::least(
                millis * crate::clock::nanos_per_milli(),
                crate::clock::duration_nanos(self.max) as int,
            ),
    {
        shorter(Duration::from_millis(millis), self.max)
    }
}

/// `millis` times `multiplier` to the power of `attempt`, or the largest 64-bit
/// number where that is larger.
pub open spec fn scaled_millis(millis: nat, multiplier: nat, attempt: nat) -> int {
    crate::clock::least(millis * pow(multiplier as int, attempt), u64::MAX as int)
}

pub proof fn lemma_scaling_grows(millis: nat, multiplier: nat, some: nat, more: nat)
    requires
        multiplier > 0,
        some <= more,
    ensures
        0 <= millis * pow(multiplier as int, some) <= millis * pow(multiplier as int, more),
{
    lemma_pow_positive(multiplier as int, some);
    lemma_pow_increases(multiplier, some, more);
    vstd::arithmetic::mul::lemma_mul_inequality(
        pow(multiplier as int, some),
        pow(multiplier as int, more),
        millis as int,
    );
    vstd::arithmetic::mul::lemma_mul_is_commutative(millis as int, pow(multiplier as int, some));
    vstd::arithmetic::mul::lemma_mul_is_commutative(millis as int, pow(multiplier as int, more));
    vstd::arithmetic::mul::lemma_mul_nonnegative(millis as int, pow(multiplier as int, some));
}

/// Scales `millis` by `multiplier` once per attempt, up to the largest 64-bit
/// number.
#[verifier::spinoff_prover]
fn scale_millis(millis: u128, multiplier: u32, attempt: u32) -> (r: u64)
    ensures
        r == scaled_millis(millis as nat, multiplier as nat, attempt as nat),
{
    let limit: u64 = u64::MAX;
    let start: u64 = if millis < limit as u128 {
        millis as u64
    } else {
        limit
    };
    proof {
        lemma_pow0(multiplier as int);
        if multiplier == 0 && attempt > 0 {
            let p = pow(0, attempt as nat);
            lemma0_pow(attempt as nat);
            assert(millis * p == 0) by (nonlinear_arith)
                requires
                    p == 0,
            ;
        }
        if multiplier == 1 {
            lemma1_pow(attempt as nat);
        }
    }
    if attempt == 0 || multiplier == 1 {
        return start;
    }
    if multiplier == 0 {
        return 0;
    }
    let mut scaled: u64 = start;
    let mut i: u32 = 0;
    while i < attempt && scaled != 0 && scaled != limit
        invariant
            limit == u64::MAX,
            multiplier > 1,
            i <= attempt,
            scaled == scaled_millis(millis as nat, multiplier as nat, i as nat),
        decreases attempt - i,
    {
        proof {
            let m = multiplier as int;
            let p = pow(m, i as nat);
            lemma_pow_positive(m, i as nat);
            lemma_pow1(m);
            lemma_pow_adds(m, i as nat, 1);
            assert(pow(m, (i + 1) as nat) == p * m);
            vstd::arithmetic::mul::lemma_mul_is_associative(millis as int, p, m);
            assert(millis * pow(m, (i + 1) as nat) == scaled * m);
            assert(scaled * m <= 0xFFFF_FFFF_FFFF_FFFF * 0xFFFF_FFFF) by (nonlinear_arith)
                requires
                    scaled <= 0xFFFF_FFFF_FFFF_FFFF,
                    0 <= m <= 0xFFFF_FFFF,
            ;
        }
        let product: u128 = scaled as u128 * multiplier as u128;
        scaled = if product < limit as u128 {
            product as u64
        } else {
            limit
        };
        i = i + 1;
    }
    proof {
        lemma_scaling_grows(millis as nat, multiplier as nat, i as nat, attempt as nat);
        lemma_pow_positive(multiplier as int, i as nat);
        if scaled == 0 {
            let p = pow(multiplier as int, i as nat);
            assert(millis == 0) by (nonlinear_arith)
                requires
                    millis * p == 0,
                    p > 0,
            ;
        }
    }
    scaled
}

impl BackoffStrategy {
    /// The delay for the attempt can be given here: the multiplier is a whole
    /// number, and one more than the attempt fits the counter where it is
    /// multiplied with.
    pub open spec fn has_delay_for(self, attempt: u32) -> bool {
        match self {
            BackoffStrategy::Linear { .. } => attempt < u32::MAX,
            BackoffStrategy::Exponential { multiplier, .. } => multiplier is Whole,
            _ => true,
        }
    }

    /// The delay for an attempt (0-indexed), in nanoseconds.
    pub open spec fn delay_nanos(self, attempt: nat) -> nat {
        match self {
            BackoffStrategy::Immediate => 0,
            BackoffStrategy::Constant(d) => crate::clock::duration_nanos(d),
            BackoffStrategy::Linear { delay, max } => crate::clock::least(
                crate::clock::duration_nanos(delay) * (attempt as int + 1),
                crate::clock::duration_nanos(max) as int,
            ) as nat,
            BackoffStrategy::Exponential { initial, max, multiplier } => {
                let millis = crate::clock::duration_nanos(initial)
                    / crate::clock::nanos_per_milli();
                crate::clock::least(
                    scaled_millis(millis, multiplier->Whole_0 as nat, attempt)
                        * crate::clock::nanos_per_milli(),
                    crate::clock::duration_nanos(max) as int,
                ) as nat
            },
        }
    }

    /// Calculate delay for a given attempt (0-indexed).
    pub fn delay_for_attempt(&self, attempt: u32) -> (d: Duration)
        requires
            self.has_delay_for(attempt),
        ensures
            crate::clock::duration_nanos(d) == self.delay_nanos(attempt as nat),
    {
        match self {
            BackoffStrategy::Immediate => Duration::from_millis(0),
            BackoffStrategy::Constant(d) => *d,
            BackoffStrategy::Linear { delay, max } => {
                let total = delay.saturating_mul(attempt + 1);
                shorter(total, *max)
            },
            BackoffStrategy::Exponential { initial, max, multiplier } => {
                let factor: u32 = match multiplier {
                    Multiplier::Whole(n) => *n,
                    Multiplier::Real(_) => 0,
                };
                let millis = scale_millis(initial.as_millis(), factor, attempt);
                shorter(Duration::from_millis(millis), *max)
            },
        }
    }
}

impl BackoffStrategy {
    /// The delay for the attempt fits the counters, whatever the multiplier.
    pub open spec fn counts_attempt(self, attempt: u32) -> bool {
        self is Linear ==> attempt < u32::MAX
    }

    /// `delay` is the delay for the attempt, or says what to scale for it.
    pub open spec fn is_delay_for(self, attempt: u32, delay: Delay) -> bool {
        match delay {
            Delay::Fixed(d) => {
                &&& self.has_delay_for(attempt)
                &&& crate::clock::duration_nanos(d) == self.delay_nanos(attempt as nat)
            },
            Delay::Scaled(s) => match self {
                BackoffStrategy::Exponential {
                    initial,
                    max,
                    multiplier: Multiplier::Real(bits),
                } => {
                    &&& s.millis == crate::clock::duration_nanos(initial)
                        / crate::clock::nanos_per_milli()
                    &&& s.multiplier == bits
                    &&& s.exponent == crate::clock::least(attempt as int, i32::MAX as int)
                    &&& s.max == max
                },
                _ => false,
            },
        }
    }

    /// The delay for a given attempt (0-indexed), or what to scale for it.
    pub fn backoff_for_attempt(&self, attempt: u32) -> (delay: Delay)
        requires
            self.counts_attempt(attempt),
        ensures
            self.is_delay_for(attempt, delay),
    {
        match self {
            BackoffStrategy::Exponential { initial, max, multiplier: Multiplier::Real(bits) } => {
                let exponent: i32 = if attempt <= i32::MAX as u32 {
                    attempt as i32
                } else {
                    i32::MAX
                };
                Delay::Scaled(
                    ScaledDelay {
                        millis: initial.as_millis(),
                        multiplier: *bits,
                        exponent,
                        max: *max,
                    },
                )
            },
            _ => Delay::Fixed(self.delay_for_attempt(attempt)),
        }
    }
}

/// Retry decision logic, implemented by [`RetryConfig`].
///
/// It separates the "should this be retried, and after what delay" decision
/// from the data of [`RetryConfig`]; the client's configuration holds a
/// `RetryConfig` and nothing else.
pub trait RetryStrategy: Send + Sync {
    /// The request is tried again after this error.
    spec fn retries(&self, attempt: u32, error: HttpClientError) -> bool;

    /// The delay before the attempt is known.
    spec fn knows_delay(&self, attempt: u32) -> bool;

    /// The delay before the attempt, in nanoseconds.
    spec fn delay(&self, attempt: u32) -> nat;

    /// Check if the request should be retried.
    fn should_retry(&self, attempt: u32, error: &HttpClientError) -> (r: bool)
        ensures
            r == self.retries(attempt, *error),
    ;

    /// Get the delay before the next retry.
    fn retry_delay(&self, attempt: u32) -> (d: Duration)
        requires
            self.knows_delay(attempt),
        ensures
            crate::clock::duration_nanos(d) == self.delay(attempt),
    ;
}

impl RetryConfig {
    /// The kind of error is one that this configuration retries.
    pub open spec fn retries_error(self, error: HttpClientError) -> bool {
        match error {
            HttpClientError::Timeout(_) => self.retry_on_timeout,
            HttpClientError::Connection(_) => self.retry_on_connection_error,
            HttpClientError::Response { status, .. } => self.retry_status_codes@.contains(status),
            HttpClientError::Http(e) => if e.timeout {
                self.retry_on_timeout
            } else if e.connect {
                self.retry_on_connection_error
            } else {
                e.status is Some && self.retry_status_codes@.contains(e.status->0)
            },
            _ => false,
        }
    }
}

impl RetryStrategy for RetryConfig {
    open spec fn retries(&self, attempt: u32, error: HttpClientError) -> bool {
        attempt < self.max_attempts && self.retries_error(error)
    }

    open spec fn knows_delay(&self, attempt: u32) -> bool {
        self.backoff.has_delay_for(attempt)
    }

    open spec fn delay(&self, attempt: u32) -> nat {
        self.backoff.delay_nanos(attempt as nat)
    }

    fn should_retry(&self, attempt: u32, error: &HttpClientError) -> (r: bool) {
        if attempt >= self.max_attempts {
            return false;
        }
        match error {
            HttpClientError::Timeout(_) => self.retry_on_timeout,
            HttpClientError::Connection(_) => self.retry_on_connection_error,
            HttpClientError::Response { status, .. } => self.should_retry_status(*status),
            HttpClientError::Http(e) => {
                if e.timeout {
                    self.retry_on_timeout
                } else if e.connect {
                    self.retry_on_connection_error
                } else if let Some(status) = e.status {
                    self.should_retry_status(status)
                } else {
                    false
                }
            },
            _ => false,
        }
    }

    fn retry_delay(&self, attempt: u32) -> (d: Duration) {
        self.delay_for_attempt(attempt)
    }
}

} // verus!
