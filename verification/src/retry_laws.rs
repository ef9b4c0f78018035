//! What holds of retries for every configuration.

use crate::error::HttpClientError;
use crate::retry::{BackoffStrategy, Delay, Multiplier, RetryConfig, RetryStrategy};
use std::time::Duration;
use vstd::arithmetic::power::*;
use vstd::math::*;
use vstd::prelude::*;

verus! {

/// The longest delay that the strategy allows, if it sets any.
pub open spec fn longest_delay(backoff: BackoffStrategy) -> Option<Duration> {
    match backoff {
        BackoffStrategy::Linear { max, .. } => Some(max),
        BackoffStrategy::Exponential { max, .. } => Some(max),
        _ => None,
    }
}

/// No delay is longer than the maximum.
pub proof fn law_no_delay_exceeds_the_maximum(backoff: BackoffStrategy, attempt: u32)
    requires
        backoff.has_delay_for(attempt),
    ensures
        longest_delay(backoff) is Some ==> backoff.delay_nanos(attempt as nat)
            <= crate::clock::duration_nanos(longest_delay(backoff)->0),
{
    if let BackoffStrategy::Exponential { initial, max, multiplier } = backoff {
        let millis = crate::clock::duration_nanos(initial) / crate::clock::nanos_per_milli();
        lemma_scaled_is_not_negative(millis, multiplier->Whole_0 as nat, attempt as nat);
    }
    if let BackoffStrategy::Linear { delay, max } = backoff {
        let step = crate::clock::duration_nanos(delay);
        assert(step * (attempt as int + 1) >= 0) by (nonlinear_arith);
    }
}

pub proof fn lemma_scaled_is_not_negative(millis: nat, multiplier: nat, attempt: nat)
    ensures
        0 <= millis * pow(multiplier as int, attempt),
        0 <= crate::retry::scaled_millis(millis, multiplier, attempt),
{
    if multiplier == 0 && attempt > 0 {
        lemma0_pow(attempt);
    } else if multiplier > 0 {
        lemma_pow_positive(multiplier as int, attempt);
    } else {
        lemma_pow0(0);
    }
    vstd::arithmetic::mul::lemma_mul_nonnegative(millis as int, pow(multiplier as int, attempt));
}

/// Delays never shrink from one attempt to a later one. Only a multiplier of
/// zero lets them.
pub proof fn law_delays_never_shrink(backoff: BackoffStrategy, some: u32, more: u32)
    requires
        backoff.has_delay_for(some),
        backoff.has_delay_for(more),
        some <= more,
        backoff matches BackoffStrategy::Exponential { multiplier, .. } ==> multiplier->Whole_0
            > 0,
    ensures
        backoff.delay_nanos(some as nat) <= backoff.delay_nanos(more as nat),
{
    if let BackoffStrategy::Exponential { initial, max, multiplier } = backoff {
        let millis = crate::clock::duration_nanos(initial) / crate::clock::nanos_per_milli();
        crate::retry::lemma_scaling_grows(
            millis,
            multiplier->Whole_0 as nat,
            some as nat,
            more as nat,
        );
    }
    if let BackoffStrategy::Linear { delay, max } = backoff {
        let step = crate::clock::duration_nanos(delay);
        assert(0 <= step * (some as int + 1) <= step * (more as int + 1)) by (nonlinear_arith)
            requires
                some <= more,
        ;
    }
}

/// An exponential delay starts at the initial one, in whole milliseconds, and is
/// multiplied from each attempt to the next until it reaches the maximum. With a
/// multiplier of two it doubles. The maximum must not be so long that its
/// milliseconds do not fit 64 bits.
pub proof fn law_exponential_delays_multiply(
    initial: Duration,
    max: Duration,
    factor: u32,
    attempt: nat,
)
    requires
        crate::clock::duration_nanos(max) <= u64::MAX * crate::clock::nanos_per_milli(),
    ensures
        ({
            let backoff = BackoffStrategy::Exponential {
                initial,
                max,
                multiplier: Multiplier::Whole(factor),
            };
            let millis = crate::clock::duration_nanos(initial) / crate::clock::nanos_per_milli();
            &&& backoff.delay_nanos(0) == crate::clock::least(
                (millis * crate::clock::nanos_per_milli()) as int,
                crate::clock::duration_nanos(max) as int,
            )
            &&& backoff.delay_nanos(attempt + 1) == crate::clock::least(
                factor * backoff.delay_nanos(attempt),
                crate::clock::duration_nanos(max) as int,
            )
        }),
{
    let millis = crate::clock::duration_nanos(initial) / crate::clock::nanos_per_milli();
    let m = factor as int;
    let p = pow(m, attempt);
    let scaled = millis * p;
    let limit = crate::clock::duration_nanos(max) as int;
    lemma_pow0(m);
    lemma_pow1(m);
    lemma_pow_adds(m, attempt, 1);
    assert(pow(m, attempt + 1) == p * m);
    vstd::arithmetic::mul::lemma_mul_is_associative(millis as int, p, m);
    assert(millis * pow(m, attempt + 1) == scaled * m);
    lemma_scaled_is_not_negative(millis, factor as nat, attempt);
    lemma_scaled_is_not_negative(millis, factor as nat, attempt + 1);
    vstd::arithmetic::mul::lemma_mul_is_commutative(scaled, m);
    if m == 0 {
        assert(scaled * m == 0) by (nonlinear_arith)
            requires
                m == 0,
        ;
    } else {
        let nanos = scaled * 1_000_000;
        assert((scaled * m) * 1_000_000 == m * nanos) by (nonlinear_arith)
            requires
                nanos == scaled * 1_000_000,
        ;
        assert(m * nanos >= nanos) by (nonlinear_arith)
            requires
                m >= 1,
                nanos >= 0,
        ;
        assert(m * limit >= limit) by (nonlinear_arith)
            requires
                m >= 1,
                limit >= 0,
        ;
    }
}

/// A linear delay starts at the increment and grows by it from each attempt to
/// the next until it reaches the maximum.
pub proof fn law_linear_delays_add_up(delay: Duration, max: Duration, attempt: nat)
    ensures
        ({
            let backoff = BackoffStrategy::Linear { delay, max };
            let step = crate::clock::duration_nanos(delay) as int;
            let limit = crate::clock::duration_nanos(max) as int;
            &&& backoff.delay_nanos(0) == crate::clock::least(step, limit)
            &&& backoff.delay_nanos(attempt + 1) == crate::clock::least(
                backoff.delay_nanos(attempt) + step,
                limit,
            )
        }),
{
    let step = crate::clock::duration_nanos(delay) as int;
    assert(step * ((attempt + 1) as int + 1) == step * (attempt as int + 1) + step
        && step * (attempt as int + 1) >= 0) by (nonlinear_arith)
        requires
            step >= 0,
    ;
}

/// A constant delay is the same before every attempt, and without a delay there
/// is none before any.
pub proof fn law_constant_delays_stay(delay: Duration, attempt: nat)
    ensures
        BackoffStrategy::Constant(delay).delay_nanos(attempt) == crate::clock::duration_nanos(
            delay,
        ),
        BackoffStrategy::Immediate.delay_nanos(attempt) == 0,
{
}

/// What a configuration does not name is not retried: nothing once the attempts
/// are used up, no timeout and no failed connection where that is switched off,
/// no status that is not listed, and no other error ever.
pub proof fn law_nothing_else_is_retried(
    config: RetryConfig,
    attempt: u32,
    error: HttpClientError,
)
    ensures
        attempt >= config.max_attempts ==> !config.retries(attempt, error),
        error is Timeout && !config.retry_on_timeout ==> !config.retries(attempt, error),
        error is Connection && !config.retry_on_connection_error ==> !config.retries(
            attempt,
            error,
        ),
        error matches HttpClientError::Response { status, .. }
            ==> !config.retry_status_codes@.contains(status) ==> !config.retries(attempt, error),
        !(error is Timeout || error is Connection || error is Response || error is Http)
            ==> !config.retries(attempt, error),
{
}

/// The statuses that are retried by default are request timeout, rate limiting
/// and the server errors that pass, and every default has a limit of a minute.
pub proof fn law_what_is_retried_by_default(config: RetryConfig, status: u16)
    requires
        config.has_default_rules(),
    ensures
        config.retry_status_codes@.contains(status) <==> status == 408 || status == 429 || status
            == 500 || status == 502 || status == 503 || status == 504,
        config.retry_on_timeout,
        config.retry_on_connection_error,
        config.max_retry_time is Some,
        crate::clock::duration_nanos(config.max_retry_time->0) == 60_000_000_000,
{
    let codes = config.retry_status_codes@;
    assert(codes[0] == 408 && codes[1] == 429 && codes[2] == 500);
    assert(codes[3] == 502 && codes[4] == 503 && codes[5] == 504);
    assert(codes.len() == 6);
}

/// The delay for attempt `n` is none, always the same, `n + 1` increments, or the
/// initial delay multiplied `n` times in whole milliseconds; the last two up to
/// the maximum.
pub proof fn law_the_delay_for_an_attempt(backoff: BackoffStrategy, n: u32)
    requires
        backoff.has_delay_for(n),
    ensures
        match backoff {
            BackoffStrategy::Immediate => backoff.delay_nanos(n as nat) == 0,
            BackoffStrategy::Constant(delay) => backoff.delay_nanos(n as nat)
                == crate::clock::duration_nanos(delay),
            BackoffStrategy::Linear { delay, max } => backoff.delay_nanos(n as nat) == min(
                crate::clock::duration_nanos(delay) * (n + 1),
                crate::clock::duration_nanos(max) as int,
            ),
            BackoffStrategy::Exponential { initial, max, multiplier } => {
                &&& multiplier matches Multiplier::Whole(factor)
                &&& backoff.delay_nanos(n as nat) == min(
                    min(
                        (crate::clock::duration_nanos(initial) / 1_000_000) * pow(
                            factor as int,
                            n as nat,
                        ),
                        0xFFFF_FFFF_FFFF_FFFF,
                    ) * 1_000_000,
                    crate::clock::duration_nanos(max) as int,
                )
            },
        },
{
    if let BackoffStrategy::Exponential { initial, max, multiplier } = backoff {
        lemma_scaled_is_not_negative(
            crate::clock::duration_nanos(initial) / 1_000_000,
            multiplier->Whole_0 as nat,
            n as nat,
        );
    }
    if let BackoffStrategy::Linear { delay, max } = backoff {
        let step = crate::clock::duration_nanos(delay);
        assert(step * (n as int + 1) >= 0) by (nonlinear_arith);
    }
}

/// The wait that is handed out for an attempt is its delay; only for a multiplier
/// that is no whole number is it what goes into the product.
pub proof fn law_what_is_handed_out_is_the_delay(backoff: BackoffStrategy, n: u32, delay: Delay)
    requires
        backoff.is_delay_for(n, delay),
    ensures
        match delay {
            Delay::Fixed(wait) => crate::clock::duration_nanos(wait) == backoff.delay_nanos(
                n as nat,
            ) && backoff.has_delay_for(n),
            Delay::Scaled(scaled) => {
                &&& backoff matches BackoffStrategy::Exponential { initial, max, multiplier }
                &&& multiplier == Multiplier::Real(scaled.multiplier)
                &&& scaled.millis == crate::clock::duration_nanos(initial) / 1_000_000
                &&& scaled.exponent == min(n as int, 0x7FFF_FFFF)
                &&& scaled.max == max
            },
        },
{
}

/// Delays are known for all attempts but where a float decides, or where a linear
/// one would need to count beyond 32 bits.
pub proof fn law_when_a_delay_is_known(config: RetryConfig, n: u32)
    ensures
        config.backoff is Immediate || config.backoff is Constant ==> config.backoff.has_delay_for(
            n,
        ),
        config.backoff is Linear && n < u32::MAX ==> config.backoff.has_delay_for(n),
        config.backoff matches BackoffStrategy::Exponential { multiplier, .. } ==> (
        config.backoff.has_delay_for(n) <==> multiplier is Whole),
        config.backoff.has_delay_for(n) ==> config.knows_delay(n) && config.delay(n)
            == config.backoff.delay_nanos(n as nat),
        n < u32::MAX ==> config.backoff.counts_attempt(n),
{
}

/// An error is retried exactly where attempts are left and its kind is one that
/// the configuration retries.
pub proof fn law_an_error_is_retried_where_its_kind_is(
    config: RetryConfig,
    attempt: u32,
    error: HttpClientError,
)
    ensures
        config.retries(attempt, error) <==> attempt < config.max_attempts && match error {
            HttpClientError::Timeout(_) => config.retry_on_timeout,
            HttpClientError::Connection(_) => config.retry_on_connection_error,
            HttpClientError::Response { status, .. } => config.retry_status_codes@.contains(status),
            HttpClientError::Http(e) => {
                ||| e.timeout && config.retry_on_timeout
                ||| !e.timeout && e.connect && config.retry_on_connection_error
                ||| !e.timeout && !e.connect && e.status is Some
                    && config.retry_status_codes@.contains(e.status->0)
            },
            _ => false,
        },
{
}

} // verus!
