//! Durations and instants: what the rest of the crate relies on of `std::time`.

use std::time::{Duration, Instant};
use vstd::prelude::*;

verus! {

/// `std::time::Instant`, a reading of the monotonic clock.
#[verifier::external_type_specification]
#[verifier::external_body]
pub struct ExInstant(std::time::Instant);

/// The length of `d` in nanoseconds, as `Duration::as_nanos` gives it.
pub uninterp spec fn duration_nanos(d: Duration) -> nat;

/// The time from `earlier` to `later` in nanoseconds, as
/// `Instant::duration_since` measures it.
pub uninterp spec fn elapsed_nanos(later: Instant, earlier: Instant) -> nat;

/// The length of the longest `Duration` in nanoseconds: `u64::MAX` seconds and
/// 999 999 999 nanoseconds.
pub open spec fn longest_nanos() -> nat {
    18_446_744_073_709_551_615_999_999_999
}

pub open spec fn nanos_per_milli() -> nat {
    1_000_000
}

pub open spec fn nanos_per_second() -> nat {
    1_000_000_000
}

/// The smaller of two numbers.
pub open spec fn least(a: int, b: int) -> int {
    if a <= b {
        a
    } else {
        b
    }
}

/// `Duration::as_nanos`: the number of whole nanoseconds, never more than
/// those of the longest duration.
pub assume_specification[ Duration::as_nanos ](d: &Duration) -> (nanos: u128)
    ensures
        nanos == duration_nanos(*d),
        nanos <= longest_nanos(),
;

/// `Duration::as_millis`: the number of whole milliseconds, rounded down.
pub assume_specification[ Duration::as_millis ](d: &Duration) -> (millis: u128)
    ensures
        millis == duration_nanos(*d) / nanos_per_milli(),
;

/// `Duration::from_millis`: that many milliseconds.
pub assume_specification[ Duration::from_millis ](millis: u64) -> (d: Duration)
    ensures
        duration_nanos(d) == millis * nanos_per_milli(),
;

/// `Duration::from_secs`: that many seconds.
pub assume_specification[ Duration::from_secs ](secs: u64) -> (d: Duration)
    ensures
        duration_nanos(d) == secs * nanos_per_second(),
;

/// `Duration::saturating_mul`: the product, or the longest duration where the
/// product is longer than that.
pub assume_specification[ Duration::saturating_mul ](d: Duration, rhs: u32) -> (product: Duration)
    ensures
        duration_nanos(product) == least(duration_nanos(d) * rhs, longest_nanos() as int),
;

/// `Instant::now`: a reading of the clock. Nothing is claimed of it.
pub assume_specification[ Instant::now ]() -> Instant;

/// `Instant::duration_since`: the time between the two readings. It depends on
/// the readings alone.
pub assume_specification[ Instant::duration_since ](later: &Instant, earlier: Instant) -> (d: Duration)
    ensures
        duration_nanos(d) == elapsed_nanos(*later, earlier),
;

/// The shorter of two durations.
pub fn shorter(a: Duration, b: Duration) -> (d: Duration)
    ensures
        duration_nanos(d) == least(duration_nanos(a) as int, duration_nanos(b) as int),
        d == (if duration_nanos(a) <= duration_nanos(b) { a } else { b }),
        duration_nanos(a) <= longest_nanos(),
        duration_nanos(b) <= longest_nanos(),
{
    if a.as_nanos() <= b.as_nanos() {
        a
    } else {
        b
    }
}

} // verus!
