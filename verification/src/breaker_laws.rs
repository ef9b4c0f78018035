//! What holds of a circuit breaker over several calls.

use crate::circuit_breaker::{BreakerView, CircuitBreakerConfig};
use std::time::Instant;
use vstd::prelude::*;

verus! {

/// The breaker after failures at `times`, in order.
pub open spec fn after_failures(b: BreakerView, times: Seq<Instant>) -> BreakerView
    decreases times.len(),
{
    if times.len() == 0 {
        b
    } else {
        after_failures(b, times.drop_last()).failed(times.last())
    }
}

/// The breaker after `n` successes.
pub open spec fn after_successes(b: BreakerView, n: nat) -> BreakerView
    decreases n,
{
    if n == 0 {
        b
    } else {
        after_successes(b, (n - 1) as nat).succeeded()
    }
}

/// The breaker after it was asked `n` times to let a request through.
pub open spec fn after_asks(b: BreakerView, n: nat) -> BreakerView
    decreases n,
{
    if n == 0 {
        b
    } else {
        after_asks(b, (n - 1) as nat).asked()
    }
}

/// `later` lies at most `nanos` after `earlier`.
pub open spec fn within(later: Instant, earlier: Instant, nanos: nat) -> bool {
    crate::clock::elapsed_nanos(later, earlier) <= nanos
}

/// No two successive instants lie further apart than `nanos`.
pub open spec fn spaced_within(times: Seq<Instant>, nanos: nat) -> bool {
    forall|i: int, j: int|
        #![trigger times[i], times[j]]
        0 <= i < times.len() && j == i + 1 && j < times.len() ==> within(times[j], times[i], nanos)
}

/// How many failures in a row open a closed circuit: the threshold, and one
/// where that is zero.
pub open spec fn failures_to_open(config: CircuitBreakerConfig) -> nat {
    if config.failure_threshold == 0 {
        1
    } else {
        config.failure_threshold as nat
    }
}

/// How many successes close a half-open circuit.
pub open spec fn successes_to_close(config: CircuitBreakerConfig) -> nat {
    if config.success_threshold == 0 {
        1
    } else {
        config.success_threshold as nat
    }
}

/// A sound breaker stays sound whatever is done to it.
pub proof fn law_every_operation_keeps_the_breaker_sound(b: BreakerView, now: Instant)
    requires
        b.wf(),
    ensures
        BreakerView::fresh(b.config).wf(),
        b.at(now).wf(),
        b.at(now).asked().wf(),
        b.succeeded().wf(),
        b.failed(now).wf(),
        b.after_reset().wf(),
{
}

/// No operation touches the configuration.
pub proof fn law_the_configuration_never_changes(b: BreakerView, now: Instant)
    ensures
        b.at(now).config == b.config,
        b.asked().config == b.config,
        b.succeeded().config == b.config,
        b.failed(now).config == b.config,
        b.after_reset().config == b.config,
{
}

proof fn lemma_a_prefix_is_spaced(times: Seq<Instant>, k: int, nanos: nat)
    requires
        0 <= k <= times.len(),
        spaced_within(times, nanos),
    ensures
        spaced_within(times.take(k), nanos),
{
    let part = times.take(k);
    assert forall|i: int, j: int|
        #![trigger part[i], part[j]]
        0 <= i < part.len() && j == i + 1 && j < part.len() implies within(
        part[j],
        part[i],
        nanos,
    ) by {
        assert(part[i] == times[i] && part[j] == times[j]);
    }
}

proof fn lemma_failures_are_counted(b: BreakerView, times: Seq<Instant>)
    requires
        b.state is Closed,
        b.failures == 0,
        0 < times.len() <= failures_to_open(b.config),
        spaced_within(times, crate::clock::duration_nanos(b.config.failure_window)),
    ensures
        after_failures(b, times).config == b.config,
        after_failures(b, times).failures == times.len(),
        after_failures(b, times).last_failure == Some(times.last()),
        times.len() < failures_to_open(b.config) ==> after_failures(b, times).state is Closed,
        times.len() == failures_to_open(b.config) ==> {
            &&& after_failures(b, times).state is Open
            &&& after_failures(b, times).opened_at == Some(times.last())
        },
    decreases times.len(),
{
    reveal_with_fuel(after_failures, 2);
    if times.len() > 1 {
        let window = crate::clock::duration_nanos(b.config.failure_window);
        let before = times.take(times.len() - 1);
        assert(before =~= times.drop_last());
        lemma_a_prefix_is_spaced(times, times.len() - 1, window);
        lemma_failures_are_counted(b, before);
        assert(within(times[times.len() - 1], times[times.len() - 2], window));
    }
}

/// A closed circuit with no failure counted opens on exactly the threshold's
/// number of failures in a row, each within the failure window of the one
/// before: with one failure less it is still closed.
pub proof fn law_repeated_failures_open_the_circuit(b: BreakerView, times: Seq<Instant>)
    requires
        b.state is Closed,
        b.failures == 0,
        times.len() == failures_to_open(b.config),
        spaced_within(times, crate::clock::duration_nanos(b.config.failure_window)),
    ensures
        after_failures(b, times).state is Open,
        after_failures(b, times).opened_at == Some(times.last()),
        after_failures(b, times).config == b.config,
        forall|k: int|
            0 <= k < times.len() ==> #[trigger] after_failures(b, times.take(k)).state is Closed
                && after_failures(b, times.take(k)).failures == k,
{
    lemma_failures_are_counted(b, times);
    assert forall|k: int| 0 <= k < times.len() implies #[trigger] after_failures(
        b,
        times.take(k),
    ).state is Closed && after_failures(b, times.take(k)).failures == k by {
        if k > 0 {
            lemma_a_prefix_is_spaced(
                times,
                k,
                crate::clock::duration_nanos(b.config.failure_window),
            );
            lemma_failures_are_counted(b, times.take(k));
        }
    }
}

/// A success while closed forgets every failure counted so far, so that only a
/// whole new run of failures opens the circuit.
pub proof fn law_a_success_forgets_failures(b: BreakerView)
    requires
        b.state is Closed,
    ensures
        b.succeeded().state is Closed,
        b.succeeded().failures == 0,
{
}

/// A failure that comes after the failure window has passed is the first of a
/// new row: the circuit stays closed exactly where more than one failure is
/// needed to open it.
pub proof fn law_a_failure_after_the_window_counts_anew(b: BreakerView, now: Instant)
    requires
        b.state is Closed,
        b.window_is_over(now),
    ensures
        b.failed(now).failures == 1,
        b.failed(now).last_failure == Some(now),
        b.failed(now).state is Closed <==> b.config.failure_threshold >= 2,
        b.failed(now).state is Open <==> b.config.failure_threshold < 2,
{
}

/// Until its reset timeout has passed, an open circuit lets nothing through, and
/// nothing that is reported to it changes it.
pub proof fn law_an_open_circuit_rejects(b: BreakerView, now: Instant)
    requires
        b.state is Open,
        !b.rest_is_over(now),
    ensures
        !b.at(now).admits(),
        b.at(now).asked() == b,
        b.succeeded() == b,
        b.failed(now) == b,
{
}

/// Once its reset timeout has passed, an open circuit is half-open with nothing
/// counted.
pub proof fn law_an_open_circuit_recovers_to_half_open(b: BreakerView, now: Instant)
    requires
        b.rest_is_over(now),
    ensures
        b.at(now).state is HalfOpen,
        b.at(now).probes == 0,
        b.at(now).successes == 0,
        b.at(now).admits() <==> b.config.half_open_requests > 0,
{
}

proof fn lemma_asks_are_counted(b: BreakerView, n: nat)
    requires
        b.state is HalfOpen,
        b.probes == 0,
    ensures
        after_asks(b, n) == (BreakerView {
            probes: if n <= u32::MAX {
                n as u32
            } else {
                u32::MAX
            },
            ..b
        }),
    decreases n,
{
    if n > 0 {
        lemma_asks_are_counted(b, (n - 1) as nat);
    }
}

/// A circuit that has just turned half-open lets through exactly the configured
/// number of requests: of the requests that follow each other without an outcome
/// reported in between, the first ones pass and all others are rejected.
pub proof fn law_half_open_lets_a_limited_number_through(b: BreakerView, n: nat)
    requires
        b.state is HalfOpen,
        b.probes == 0,
    ensures
        after_asks(b, n).admits() <==> n < b.config.half_open_requests,
        after_asks(b, n).state is HalfOpen,
{
    lemma_asks_are_counted(b, n);
}

/// Any failure while half-open opens the circuit again, for a whole new reset
/// timeout.
pub proof fn law_a_half_open_failure_reopens(b: BreakerView, now: Instant)
    requires
        b.state is HalfOpen,
    ensures
        b.failed(now).state is Open,
        b.failed(now).opened_at == Some(now),
{
}

/// Exactly the success threshold's number of successes close a circuit that has
/// just turned half-open, and nothing is counted then: with one success less it
/// is still half-open.
pub proof fn law_enough_successes_close_the_circuit(b: BreakerView, n: nat)
    requires
        b.state is HalfOpen,
        b.successes == 0,
        n <= successes_to_close(b.config),
    ensures
        n < successes_to_close(b.config) ==> after_successes(b, n) == (BreakerView {
            successes: n as u32,
            ..b
        }),
        n == successes_to_close(b.config) ==> after_successes(b, n) == b.closed(),
    decreases n,
{
    if n > 0 {
        law_enough_successes_close_the_circuit(b, (n - 1) as nat);
    }
}

/// A reset closes the circuit from any state; a second one changes nothing.
pub proof fn law_a_reset_closes(b: BreakerView)
    ensures
        b.after_reset().state is Closed,
        !(b.state is Closed) ==> b.after_reset().failures == 0,
        b.after_reset().after_reset() == b.after_reset(),
{
}

/// A new breaker is closed, has counted nothing and lets requests through.
pub proof fn law_a_new_breaker_is_closed(config: CircuitBreakerConfig)
    ensures
        BreakerView::fresh(config).config == config,
        BreakerView::fresh(config).state is Closed,
        BreakerView::fresh(config).failures == 0,
        BreakerView::fresh(config).successes == 0,
        BreakerView::fresh(config).probes == 0,
        BreakerView::fresh(config).last_failure is None,
        BreakerView::fresh(config).opened_at is None,
        BreakerView::fresh(config).admits(),
{
}

/// A failure of a closed circuit is one more in a row, unless the one before lies
/// further back than the failure window: then it is the first. The circuit opens
/// at that time exactly where the threshold is reached, and else stays closed.
pub proof fn law_a_failure_counts_against_the_threshold(b: BreakerView, now: Instant)
    requires
        b.state is Closed,
        b.failures < u32::MAX,
    ensures
        ({
            let alone = b.last_failure is Some && crate::clock::elapsed_nanos(
                now,
                b.last_failure->0,
            ) > crate::clock::duration_nanos(b.config.failure_window);
            let next = b.failed(now);
            &&& alone ==> next.failures == 1
            &&& !alone ==> next.failures == b.failures + 1
            &&& next.last_failure == Some(now)
            &&& next.failures >= b.config.failure_threshold ==> {
                &&& next.state is Open
                &&& next.opened_at == Some(now)
                &&& next.successes == 0
                &&& next.probes == 0
            }
            &&& next.failures < b.config.failure_threshold ==> {
                &&& next.state is Closed
                &&& next.opened_at == b.opened_at
                &&& next.successes == b.successes
                &&& next.probes == b.probes
            }
        }),
{
}

/// A failure of a half-open circuit opens it at that time and starts the counts
/// of successes and requests over; the failures that opened it first stay known.
pub proof fn law_a_half_open_failure_keeps_the_failures(b: BreakerView, now: Instant)
    requires
        b.state is HalfOpen,
    ensures
        b.failed(now).state is Open,
        b.failed(now).opened_at == Some(now),
        b.failed(now).successes == 0,
        b.failed(now).probes == 0,
        b.failed(now).failures == b.failures,
        b.failed(now).last_failure == b.last_failure,
{
}

/// An open circuit does not change by what is reported to it.
pub proof fn law_an_open_circuit_ignores_outcomes(b: BreakerView, now: Instant)
    requires
        b.state is Open,
    ensures
        b.failed(now) == b,
        b.succeeded() == b,
{
}

/// A success of a closed circuit forgets its failures and changes nothing else.
pub proof fn law_a_success_changes_nothing_else(b: BreakerView)
    requires
        b.state is Closed,
    ensures
        b.succeeded().state is Closed,
        b.succeeded().failures == 0,
        b.succeeded().successes == b.successes,
        b.succeeded().probes == b.probes,
        b.succeeded().last_failure == b.last_failure,
        b.succeeded().opened_at == b.opened_at,
{
}

/// A success of a half-open circuit is one more, and closes it exactly where the
/// success threshold is reached: then nothing is counted any more.
pub proof fn law_a_half_open_success_counts(b: BreakerView)
    requires
        b.state is HalfOpen,
    ensures
        b.succeeded().last_failure == b.last_failure,
        b.successes + 1 < b.config.success_threshold ==> {
            &&& b.succeeded().state is HalfOpen
            &&& b.succeeded().successes == b.successes + 1
            &&& b.succeeded().failures == b.failures
            &&& b.succeeded().probes == b.probes
            &&& b.succeeded().opened_at == b.opened_at
        },
        b.successes + 1 >= b.config.success_threshold ==> {
            &&& b.succeeded().state is Closed
            &&& b.succeeded().successes == 0
            &&& b.succeeded().failures == 0
            &&& b.succeeded().probes == 0
            &&& b.succeeded().opened_at is None
        },
{
}

/// Looking at a breaker changes it only where it is open and the reset timeout has
/// passed since it opened: then it is half-open, with no success and no request
/// counted.
pub proof fn law_only_rest_makes_a_circuit_half_open(b: BreakerView, now: Instant)
    ensures
        b.state !is Open || b.opened_at is None ==> b.at(now) == b,
        b.state is Open && b.opened_at is Some && crate::clock::elapsed_nanos(now, b.opened_at->0)
            < crate::clock::duration_nanos(b.config.reset_timeout) ==> b.at(now) == b,
        b.state is Open && b.opened_at is Some && crate::clock::elapsed_nanos(now, b.opened_at->0)
            >= crate::clock::duration_nanos(b.config.reset_timeout) ==> {
            &&& b.at(now).state is HalfOpen
            &&& b.at(now).successes == 0
            &&& b.at(now).probes == 0
            &&& b.at(now).failures == b.failures
            &&& b.at(now).last_failure == b.last_failure
            &&& b.at(now).opened_at == b.opened_at
        },
{
}

/// A closed circuit lets every request through, an open one none, and a half-open
/// one as long as fewer have asked than are allowed. Only a half-open one counts
/// who asks.
pub proof fn law_who_is_let_through(b: BreakerView)
    ensures
        b.state is Closed ==> b.admits() && b.asked() == b,
        b.state is Open ==> !b.admits() && b.asked() == b,
        b.state is HalfOpen ==> {
            &&& b.admits() <==> b.probes < b.config.half_open_requests
            &&& b.probes < u32::MAX ==> b.asked().probes == b.probes + 1
            &&& b.probes == u32::MAX ==> b.asked().probes == u32::MAX
            &&& b.asked().state is HalfOpen
            &&& b.asked().failures == b.failures
            &&& b.asked().successes == b.successes
            &&& b.asked().last_failure == b.last_failure
            &&& b.asked().opened_at == b.opened_at
        },
{
}

/// A reset leaves a closed circuit alone and takes every other one back to
/// closed, with nothing counted; when it last failed stays known.
pub proof fn law_a_reset_forgets_what_was_counted(b: BreakerView)
    ensures
        b.state is Closed ==> b.after_reset() == b,
        b.state !is Closed ==> {
            &&& b.after_reset().state is Closed
            &&& b.after_reset().failures == 0
            &&& b.after_reset().successes == 0
            &&& b.after_reset().probes == 0
            &&& b.after_reset().opened_at is None
            &&& b.after_reset().last_failure == b.last_failure
        },
{
}

} // verus!
