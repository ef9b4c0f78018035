//! What holds of an execution from its first action to its last.

use crate::circuit_breaker::{BreakerView, CircuitBreaker, CircuitState};
use crate::client::ClientView;
use crate::error::HttpClientError;
use crate::execution::{
    Action, Body, Event, ExecutionView, Outgoing, Phase, RequestHook, RequestParts, ResponseHook,
};
use crate::request::RequestView;
use crate::response::Response;
use crate::retry::{BackoffStrategy, Delay, Multiplier};
use std::time::Instant;
use vstd::arithmetic::power::*;
use vstd::math::*;
use vstd::prelude::*;

verus! {

/// One action that an execution hands out, and all that belongs to it.
pub struct Moment<R> {
    /// The clock readings that the action rests on.
    pub now: Instant,
    pub check: Instant,
    /// The circuit breaker before and after: others may use it in between.
    pub before: Option<BreakerView>,
    pub after: Option<BreakerView>,
    /// The execution once it has handed out the action.
    pub state: ExecutionView<R>,
    pub action: Action<R>,
}

/// An execution so far: what it handed out, and the events in between.
pub struct Run<R> {
    pub spec: RequestView,
    pub moments: Seq<Moment<R>>,
    pub events: Seq<Event<R>>,
}

impl<R> Run<R> {
    /// How many requests were sent up to and with moment `i`.
    pub open spec fn sends(self, i: int) -> nat
        decreases i + 1,
    {
        if i < 0 {
            0
        } else {
            self.sends(i - 1) + if self.moments[i].action is Send {
                1nat
            } else {
                0
            }
        }
    }
}

impl<I, Q, P> ClientView<I, Q, P> {
    /// The interceptors can be counted.
    pub open spec fn countable(self) -> bool {
        &&& self.interceptors.len() <= usize::MAX
        &&& self.request_interceptors.len() <= usize::MAX
        &&& self.response_interceptors.len() <= usize::MAX
    }

    /// How many interceptors work on a request.
    pub open spec fn request_hooks(self) -> nat {
        self.interceptors.len() + self.request_interceptors.len()
    }

    /// How many interceptors work on a response.
    pub open spec fn response_hooks(self) -> nat {
        self.interceptors.len() + self.response_interceptors.len()
    }

    /// The interceptor that works on a request after `n` others: the combined
    /// ones come first, each kind in the order of registration.
    pub open spec fn request_hook(self, n: int) -> RequestHook {
        if n < self.interceptors.len() {
            RequestHook::Interceptor(n as usize)
        } else {
            RequestHook::RequestInterceptor((n - self.interceptors.len()) as usize)
        }
    }

    /// The interceptor that works on a response after `n` others.
    pub open spec fn response_hook(self, n: int) -> ResponseHook {
        if n < self.interceptors.len() {
            ResponseHook::Interceptor(n as usize)
        } else {
            ResponseHook::ResponseInterceptor((n - self.interceptors.len()) as usize)
        }
    }

    /// The moment at which the first attempt begins, if it comes to one: at once,
    /// or when all request interceptors have run and the request is described.
    pub open spec fn first_attempt(self) -> int {
        if self.interceptors.len() + self.request_interceptors.len() == 0 {
            0
        } else {
            (self.interceptors.len() + self.request_interceptors.len() + 1) as int
        }
    }

    /// The time for attempts is over at moment `i`: more of it has passed since
    /// the first attempt began than all attempts may take.
    pub open spec fn is_late<R>(self, run: Run<R>, i: int) -> bool {
        match self.config.retry {
            Some(retry) => match retry.max_retry_time {
                Some(limit) => crate::clock::elapsed_nanos(
                    run.moments[i].check,
                    run.moments[self.first_attempt()].now,
                ) > crate::clock::duration_nanos(limit),
                None => false,
            },
            None => false,
        }
    }

    /// The execution begins with the first moment.
    pub open spec fn starts<R>(self, run: Run<R>) -> bool {
        let first = run.moments[0];
        self.begins(
            run.spec,
            first.before,
            first.now,
            first.check,
            first.state,
            first.after,
            first.action,
        )
    }

    /// Event `i` leads from moment `i` to the next one.
    pub open spec fn goes_on<R>(self, run: Run<R>, i: int) -> bool {
        let next = run.moments[i + 1];
        &&& run.moments[i].state.awaits(run.events[i])
        &&& self.steps(
            run.moments[i].state,
            next.before,
            run.events[i],
            next.now,
            next.check,
            next.state,
            next.after,
            next.action,
        )
    }

    /// What `execute` and any number of calls of `advance` lead to.
    pub open spec fn is_run<R>(self, run: Run<R>) -> bool {
        &&& self.countable()
        &&& run.moments.len() == run.events.len() + 1
        &&& self.starts(run)
        &&& forall|i: int| 0 <= i < run.events.len() ==> #[trigger] self.goes_on(run, i)
    }

    /// Moment `k` is the one at which interceptor `k` works on the request.
    pub open spec fn intercepts_request<R>(self, run: Run<R>, k: int) -> bool {
        run.moments[k].action matches Action::InterceptRequest { hook, .. } && hook
            == self.request_hook(k)
    }

    /// Interceptor `k` works on the response `k` moments after moment `from`.
    pub open spec fn intercepts_response<R>(self, run: Run<R>, from: int, k: int) -> bool {
        run.moments[from + k].action matches Action::InterceptResponse { hook, .. } && hook
            == self.response_hook(k)
    }

    /// From moment `from` on, the first `n` interceptors work in order on the
    /// response that came with the event before.
    pub open spec fn intercepts_responses<R>(self, run: Run<R>, from: int, n: int) -> bool {
        &&& from >= 1
        &&& run.events[from - 1] matches Event::Sent(Ok(_))
        &&& forall|k: int| 0 <= k < n ==> #[trigger] self.intercepts_response(run, from, k)
    }

    /// The request that attempts are built from is the caller's, with what the
    /// interceptors made of it if there are any.
    pub open spec fn settled<R>(self, run: Run<R>, i: int) -> bool {
        if self.request_hooks() == 0 {
            run.moments[i].state.spec == run.spec
        } else {
            &&& self.request_hooks() < i
            &&& run.events[self.request_hooks() as int] matches Event::Described(_, parts)
            &&& run.moments[i].state.spec == crate::execution::folded(run.spec, parts)
            &&& self.max_attempts() > 1 ==> parts.body !is Streaming
        }
    }

    /// What is known of an execution at moment `i`.
    spec fn keeps<R>(self, run: Run<R>, i: int) -> bool {
        let m = run.moments[i];
        &&& self.sound(m.state)
        &&& m.state.phase !is Finished ==> m.state.intercepted is None
        &&& match m.state.phase {
            Phase::InterceptingRequest(hook) => {
                &&& m.action is InterceptRequest
                &&& m.action->InterceptRequest_hook == hook
                &&& hook == self.request_hook(i)
                &&& i < self.request_hooks()
                &&& run.sends(i) == 0
                &&& m.state.spec == run.spec
            },
            Phase::Describing => {
                &&& m.action is Describe
                &&& i == self.request_hooks()
                &&& 0 < self.request_hooks()
                &&& run.sends(i) == 0
                &&& m.state.spec == run.spec
            },
            Phase::Sending => {
                &&& m.action is Send
                &&& run.sends(i) == m.state.attempt + 1
                &&& self.settled(run, i)
                &&& self.first_attempt() <= i
                &&& m.state.started == run.moments[self.first_attempt()].now
            },
            Phase::BackingOff => {
                &&& m.action is Backoff
                &&& 0 < m.state.attempt
                &&& run.sends(i) == m.state.attempt
                &&& self.settled(run, i)
                &&& self.first_attempt() <= i
                &&& m.state.started == run.moments[self.first_attempt()].now
            },
            Phase::InterceptingResponse(hook) => {
                &&& m.action is InterceptResponse
                &&& m.action->InterceptResponse_hook == hook
                &&& run.sends(i) == m.state.attempt + 1
                &&& self.settled(run, i)
            },
            Phase::Finished => {
                &&& m.action is Finish
                &&& run.sends(i) <= m.state.attempt + 1
            },
        }
    }

    proof fn lemma_begins_well<R>(self, run: Run<R>)
        requires
            self.is_run(run),
        ensures
            self.keeps(run, 0),
    {
        reveal_with_fuel(Run::sends, 2);
    }

    proof fn lemma_goes_on_well<R>(self, run: Run<R>, i: int)
        requires
            self.is_run(run),
            0 <= i < run.events.len(),
            self.keeps(run, i),
        ensures
            self.keeps(run, i + 1),
    {
        assert(self.goes_on(run, i));
        assert(run.sends(i + 1) == run.sends(i) + if run.moments[i + 1].action is Send {
            1nat
        } else {
            0
        });
    }

    proof fn lemma_keeps<R>(self, run: Run<R>, i: int)
        requires
            self.is_run(run),
            0 <= i < run.moments.len(),
        ensures
            self.keeps(run, i),
        decreases i,
    {
        if i == 0 {
            self.lemma_begins_well(run);
        } else {
            self.lemma_keeps(run, i - 1);
            self.lemma_goes_on_well(run, i - 1);
        }
    }

    proof fn lemma_sending_comes_after_intercepting<R>(self, run: Run<R>, i: int)
        requires
            self.is_run(run),
            0 <= i < run.moments.len(),
        ensures
            run.moments[i].state.phase is InterceptingRequest ==> forall|k: int|
                0 <= k <= i ==> #[trigger] self.intercepts_request(run, k),
            run.moments[i].state.phase is Describing || run.sends(i) > 0 ==> {
                &&& self.request_hooks() <= i
                &&& forall|k: int|
                    0 <= k < self.request_hooks() ==> #[trigger] self.intercepts_request(run, k)
            },
        decreases i,
    {
        reveal_with_fuel(Run::sends, 2);
        self.lemma_keeps(run, i);
        if i > 0 {
            self.lemma_sending_comes_after_intercepting(run, i - 1);
            self.lemma_keeps(run, i - 1);
            assert(self.goes_on(run, i - 1));
        }
    }

    proof fn lemma_responses_are_intercepted_in_order<R>(self, run: Run<R>, i: int)
        requires
            self.is_run(run),
            0 <= i < run.moments.len(),
            run.moments[i].action is InterceptResponse,
        ensures
            ({
                let n = match run.moments[i].action->InterceptResponse_hook {
                    ResponseHook::Interceptor(k) => k as int,
                    ResponseHook::ResponseInterceptor(k) => self.interceptors.len() + k,
                };
                &&& 0 <= n < self.response_hooks()
                &&& self.intercepts_responses(run, i - n, n + 1)
                &&& run.sends(i) == run.sends(i - n - 1)
            }),
        decreases i,
    {
        self.lemma_keeps(run, i);
        if i > 0 {
            self.lemma_keeps(run, i - 1);
            assert(self.goes_on(run, i - 1));
            if run.moments[i - 1].action is InterceptResponse {
                self.lemma_responses_are_intercepted_in_order(run, i - 1);
            } else {
                assert(self.intercepts_response(run, i, 0));
            }
        }
    }

    /// How many moments are still to come at most.
    spec fn still_to_come<R>(self, state: ExecutionView<R>) -> int {
        let attempts = 2 * (self.max_attempts() - state.attempt) + self.response_hooks();
        match state.phase {
            Phase::InterceptingRequest(RequestHook::Interceptor(n)) => attempts + 1
                + self.request_hooks() - n,
            Phase::InterceptingRequest(RequestHook::RequestInterceptor(n)) => attempts + 1
                + self.request_interceptors.len() - n,
            Phase::Describing => attempts + 1,
            Phase::Sending => attempts,
            Phase::BackingOff => attempts + 1,
            Phase::InterceptingResponse(ResponseHook::Interceptor(n)) => self.response_hooks() - n,
            Phase::InterceptingResponse(ResponseHook::ResponseInterceptor(n)) =>
                self.response_interceptors.len() - n,
            Phase::Finished => 0,
        }
    }

    proof fn lemma_comes_closer<R>(self, run: Run<R>, i: int)
        requires
            self.is_run(run),
            0 <= i < run.moments.len(),
        ensures
            0 <= self.still_to_come(run.moments[i].state),
            i + self.still_to_come(run.moments[i].state) <= self.request_hooks() + 2
                * self.max_attempts() + self.response_hooks() + 1,
        decreases i,
    {
        self.lemma_keeps(run, i);
        if i > 0 {
            self.lemma_comes_closer(run, i - 1);
            self.lemma_keeps(run, i - 1);
            assert(self.goes_on(run, i - 1));
        }
    }
}

/// An execution keeps what it needs to go on, whatever its events are.
pub proof fn law_an_execution_stays_sound<I, Q, P, R>(
    client: ClientView<I, Q, P>,
    run: Run<R>,
    i: int,
)
    requires
        client.is_run(run),
        0 <= i < run.moments.len(),
    ensures
        client.sound(run.moments[i].state),
{
    client.lemma_keeps(run, i);
}

/// A request is sent at most as often as is configured: once without retries,
/// and once too where the number of attempts is set to zero.
pub proof fn law_attempts_are_limited<I, Q, P, R>(client: ClientView<I, Q, P>, run: Run<R>, i: int)
    requires
        client.is_run(run),
        0 <= i < run.moments.len(),
    ensures
        run.sends(i) <= client.max_attempts(),
        client.config.retry is None ==> run.sends(i) <= 1,
        client.config.retry is Some && client.config.retry->0.max_attempts == 0 ==> run.sends(i)
            <= 1,
        client.config.retry is Some && client.config.retry->0.max_attempts > 0 ==> run.sends(i)
            <= client.config.retry->0.max_attempts,
{
    client.lemma_keeps(run, i);
}

/// Every execution comes to an end: no more moments follow each other than there
/// are interceptors, attempts and waits between attempts.
pub proof fn law_an_execution_ends<I, Q, P, R>(client: ClientView<I, Q, P>, run: Run<R>)
    requires
        client.is_run(run),
    ensures
        run.moments.len() <= client.request_hooks() + 2 * client.max_attempts()
            + client.response_hooks() + 2,
{
    client.lemma_comes_closer(run, run.moments.len() - 1);
}

/// What is handed to the caller is the last thing that happens, and nothing but
/// that ends an execution.
pub proof fn law_the_last_action_is_to_finish<I, Q, P, R>(
    client: ClientView<I, Q, P>,
    run: Run<R>,
    i: int,
)
    requires
        client.is_run(run),
        0 <= i < run.moments.len(),
    ensures
        run.moments[i].action is Finish <==> run.moments[i].state.phase is Finished,
        run.moments[i].action is Finish ==> i == run.moments.len() - 1,
{
    client.lemma_keeps(run, i);
    if i < run.events.len() {
        assert(client.goes_on(run, i));
    }
}

/// Every attempt that is built anew carries the caller's request, body and
/// timeout included, with what the interceptors made of it if there are any. A
/// stream that an interceptor put in place of the body is never lost on the way:
/// where further attempts are possible, no request is sent then.
pub proof fn law_every_attempt_carries_the_request<I, Q, P, R>(
    client: ClientView<I, Q, P>,
    run: Run<R>,
    i: int,
    request: crate::request::Request,
)
    requires
        client.is_run(run),
        0 <= i < run.moments.len(),
        run.moments[i].action == Action::<R>::Send(Outgoing::Fresh(request)),
    ensures
        client.request_hooks() == 0 ==> request@ == run.spec,
        client.request_hooks() > 0 ==> {
            let described = client.request_hooks() as int;
            &&& described < i
            &&& run.events[described] matches Event::Described(_, parts)
            &&& request@ == crate::execution::folded(run.spec, parts)
            &&& request@.timeout == run.spec.timeout
            &&& parts.body !is Streaming
        },
        request.timeout == run.spec.timeout,
        client.interceptors.len() + client.request_interceptors.len() == 0 ==> {
            &&& crate::wire::method_text(request.method) == run.spec.method
            &&& request.url == run.spec.url
            &&& crate::header::header_entries(request.headers) == run.spec.headers
            &&& request.body is Some <==> run.spec.body is Some
            &&& request.body is Some ==> request.body->0@ == run.spec.body->0
        },
        client.interceptors.len() + client.request_interceptors.len() > 0 ==> {
            let described = client.interceptors.len() + client.request_interceptors.len();
            &&& described < i
            &&& run.events[described as int] matches Event::Described(_, parts)
            &&& crate::wire::method_text(request.method) == crate::wire::method_text(parts.method)
            &&& request.url == parts.url
            &&& crate::header::header_entries(request.headers) == crate::header::header_entries(
                parts.headers,
            )
            &&& parts.body !is Streaming
            &&& parts.body is Absent ==> request.body is None
            &&& parts.body matches Body::Buffered(bytes) ==> request.body is Some
                && request.body->0@ == bytes@
        },
{
    client.lemma_keeps(run, i);
    if i > 0 {
        client.lemma_keeps(run, i - 1);
        assert(client.goes_on(run, i - 1));
    }
}

/// The request that the interceptors left is sent at most once, and before all
/// others: as soon as it has been described, and with nothing sent before.
pub proof fn law_the_intercepted_request_is_sent_first<I, Q, P, R>(
    client: ClientView<I, Q, P>,
    run: Run<R>,
    i: int,
    request: R,
)
    requires
        client.is_run(run),
        0 <= i < run.moments.len(),
        run.moments[i].action == Action::Send(Outgoing::Intercepted(request)),
    ensures
        i == client.request_hooks() + 1,
        run.sends(i) == 1,
        run.moments[i - 1].action is Describe,
        run.events[i - 1] matches Event::Described(described, _) && described == request,
{
    client.lemma_keeps(run, i);
    if i > 0 {
        client.lemma_keeps(run, i - 1);
        assert(client.goes_on(run, i - 1));
    }
}

/// Interceptor `k` works on the request at moment `k` and at no other: each one
/// runs once, in order, and all of them before the first request is sent.
pub proof fn law_request_interceptors_run_once_and_first<I, Q, P, R>(
    client: ClientView<I, Q, P>,
    run: Run<R>,
    i: int,
)
    requires
        client.is_run(run),
        0 <= i < run.moments.len(),
    ensures
        run.moments[i].action is InterceptRequest ==> i < client.request_hooks()
            && client.intercepts_request(run, i),
        run.sends(i) > 0 ==> client.request_hooks() <= i && forall|k: int|
            0 <= k < client.request_hooks() ==> #[trigger] client.intercepts_request(run, k),
{
    client.lemma_keeps(run, i);
    if run.sends(i) > 0 {
        client.lemma_sending_comes_after_intercepting(run, i);
    }
}

/// Each interceptor gets the request that the one before it returned, and the
/// first one gets the caller's.
pub proof fn law_interceptors_pass_the_request_on<I, Q, P, R>(
    client: ClientView<I, Q, P>,
    run: Run<R>,
    i: int,
)
    requires
        client.is_run(run),
        0 <= i < run.moments.len(),
    ensures
        run.moments[i].action matches Action::InterceptRequest { request, .. } ==> match request {
            Outgoing::Fresh(fresh) => i == 0 && fresh@ == run.spec,
            Outgoing::Intercepted(changed) => i > 0 && run.events[i - 1]
                == Event::RequestIntercepted(Ok(changed)),
        },
        run.moments[i].action matches Action::Describe(changed) ==> i > 0 && run.events[i - 1]
            == Event::RequestIntercepted(Ok(changed)),
{
    client.lemma_keeps(run, i);
    if i > 0 {
        client.lemma_keeps(run, i - 1);
        assert(client.goes_on(run, i - 1));
    }
}

/// A response that reaches the caller has gone through every response
/// interceptor once, in order, since it came from the last request that was sent.
pub proof fn law_response_interceptors_run_once_and_last<I, Q, P, R>(
    client: ClientView<I, Q, P>,
    run: Run<R>,
    i: int,
)
    requires
        client.is_run(run),
        0 <= i < run.moments.len(),
        run.moments[i].action matches Action::Finish(Ok(_)),
    ensures
        client.intercepts_responses(
            run,
            i - client.response_hooks(),
            client.response_hooks() as int,
        ),
        run.sends(i) == run.sends(i - client.response_hooks() - 1),
{
    client.lemma_keeps(run, i);
    if i > 0 {
        client.lemma_keeps(run, i - 1);
        assert(client.goes_on(run, i - 1));
        if run.moments[i - 1].action is InterceptResponse {
            client.lemma_responses_are_intercepted_in_order(run, i - 1);
        }
    }
}

/// A response interceptor gets the response of the last request or what the
/// interceptor before it returned, and the caller gets what is left in the end.
pub proof fn law_interceptors_pass_the_response_on<I, Q, P, R>(
    client: ClientView<I, Q, P>,
    run: Run<R>,
    i: int,
    response: Response,
)
    requires
        client.is_run(run),
        0 <= i < run.moments.len(),
        run.moments[i].action == Action::<R>::Finish(Ok(response)) || (
        run.moments[i].action is InterceptResponse
            && run.moments[i].action->InterceptResponse_response == response),
    ensures
        i > 0,
        run.events[i - 1] == Event::<R>::Sent(Ok(response)) || run.events[i - 1]
            == Event::<R>::ResponseIntercepted(Ok(response)),
{
    client.lemma_keeps(run, i);
    if i > 0 {
        client.lemma_keeps(run, i - 1);
        assert(client.goes_on(run, i - 1));
    }
}

/// The outcome of each attempt is recorded once with the circuit breaker, and
/// nothing else that happens after admission touches it. An error is a failure,
/// and so is a response with a server error or rate limiting; any other response
/// is a success.
pub proof fn law_every_attempt_is_recorded_once<I, Q, P, R>(
    client: ClientView<I, Q, P>,
    run: Run<R>,
    i: int,
)
    requires
        client.is_run(run),
        0 <= i < run.events.len(),
    ensures
        run.moments[i].action is Send <==> run.events[i] is Sent,
        run.moments[i + 1].after == match run.events[i] {
            Event::Sent(outcome) => crate::execution::recorded(
                run.moments[i + 1].before,
                crate::execution::attempt_failed(outcome),
                run.moments[i + 1].now,
            ),
            _ => run.moments[i + 1].before,
        },
        run.events[i] !is Sent ==> run.moments[i + 1].after == run.moments[i + 1].before,
        run.moments[i + 1].before is None ==> run.moments[i + 1].after is None,
        run.moments[i + 1].before is Some ==> match run.events[i] {
            Event::Sent(Err(_)) => run.moments[i + 1].after == Some(
                run.moments[i + 1].before->0.failed(run.moments[i + 1].now),
            ),
            Event::Sent(Ok(response)) => if 500 <= response@.status <= 599 || response@.status
                == 429 {
                run.moments[i + 1].after == Some(
                    run.moments[i + 1].before->0.failed(run.moments[i + 1].now),
                )
            } else {
                run.moments[i + 1].after == Some(run.moments[i + 1].before->0.succeeded())
            },
            _ => true,
        },
{
    client.lemma_keeps(run, i);
    assert(client.goes_on(run, i));
}

/// A request that the circuit breaker does not admit fails at once: nothing is
/// sent and no interceptor runs.
pub proof fn law_a_rejected_request_is_not_sent<I, Q, P, R>(
    client: ClientView<I, Q, P>,
    run: Run<R>,
)
    requires
        client.is_run(run),
        run.moments[0].before is Some,
        !run.moments[0].before->0.at(run.moments[0].now).admits(),
    ensures
        run.moments.len() == 1,
        run.moments[0].action == Action::<R>::Finish(Err(HttpClientError::CircuitOpen)),
{
    law_the_last_action_is_to_finish(client, run, 0);
}

/// A stream in place of the body is refused exactly where a further attempt is
/// possible, and then before anything is sent.
pub proof fn law_a_stream_is_refused_where_it_could_be_needed_twice<I, Q, P, R>(
    client: ClientView<I, Q, P>,
    run: Run<R>,
    i: int,
    request: R,
    parts: RequestParts,
)
    requires
        client.is_run(run),
        0 <= i < run.events.len(),
        run.events[i] == Event::Described(request, parts),
    ensures
        run.moments[i + 1].action == Action::<R>::Finish(
            Err(HttpClientError::StreamingBodyNotRetryable),
        ) <==> parts.body is Streaming && client.config.retry is Some
            && client.config.retry->0.max_attempts > 1,
        parts.body is Streaming && client.config.retry is Some
            && client.config.retry->0.max_attempts > 1 ==> run.sends(i + 1) == 0
            && run.moments.len() == i + 2,
        run.moments[i + 1].action == Action::<R>::Finish(
            Err(HttpClientError::StreamingBodyNotRetryable),
        ) <==> parts.body is Streaming && client.max_attempts() > 1,
        parts.body is Streaming && client.max_attempts() > 1 ==> run.sends(i + 1) == 0
            && run.moments.len() == i + 2,
{
    client.lemma_keeps(run, i);
    client.lemma_keeps(run, i + 1);
    assert(client.goes_on(run, i));
    law_the_last_action_is_to_finish(client, run, i + 1);
}

/// Another attempt is made exactly after an attempt that came to a status or an
/// error to retry on, as long as there are attempts left, and the wait before it
/// is the configured one.
pub proof fn law_only_what_is_configured_is_retried<I, Q, P, R>(
    client: ClientView<I, Q, P>,
    run: Run<R>,
    i: int,
)
    requires
        client.is_run(run),
        0 <= i < run.events.len(),
    ensures
        run.moments[i + 1].action is Backoff <==> run.events[i] is Sent && client.tries_again(
            run.moments[i].state.attempt,
            run.events[i]->Sent_0,
        ),
        run.moments[i + 1].action matches Action::Backoff { attempt, delay } ==> {
            &&& client.config.retry is Some
            &&& attempt == run.sends(i + 1)
            &&& attempt < client.config.retry->0.max_attempts
            &&& client.config.retry->0.backoff.is_delay_for(attempt, delay)
        },
{
    client.lemma_keeps(run, i);
    client.lemma_keeps(run, i + 1);
    assert(client.goes_on(run, i));
}

/// A response with any status, be it a failing one, is returned as it is where
/// nothing asks for another attempt and no interceptor is registered for it.
pub proof fn law_a_response_is_returned_as_it_is<I, Q, P, R>(
    client: ClientView<I, Q, P>,
    run: Run<R>,
    i: int,
    response: Response,
)
    requires
        client.is_run(run),
        0 <= i < run.events.len(),
        run.events[i] == Event::<R>::Sent(Ok(response)),
        !client.tries_again(run.moments[i].state.attempt, Ok(response)),
        client.response_hooks() == 0,
    ensures
        run.moments[i + 1].action == Action::<R>::Finish(Ok(response)),
{
    assert(client.goes_on(run, i));
}

/// A response is tried again exactly where its status is listed and fewer
/// requests were sent than attempts are configured.
pub proof fn law_a_status_is_retried_where_it_is_listed<I, Q, P, R>(
    client: ClientView<I, Q, P>,
    run: Run<R>,
    i: int,
    response: Response,
)
    requires
        client.is_run(run),
        0 <= i < run.events.len(),
        run.events[i] == Event::<R>::Sent(Ok(response)),
    ensures
        client.config.retry is None ==> run.moments[i + 1].action !is Backoff,
        client.config.retry matches Some(retry) ==> (run.moments[i + 1].action is Backoff
            <==> retry.retry_status_codes@.contains(response@.status) && run.sends(i)
            < retry.max_attempts),
{
    client.lemma_keeps(run, i);
    assert(client.goes_on(run, i));
}

/// An attempt that came to an error is made again exactly where errors of its
/// kind are retried and fewer requests were sent than attempts are configured: a
/// timeout, a failed connection or a listed status, and nothing else.
pub proof fn law_an_error_is_retried_by_its_kind<I, Q, P, R>(
    client: ClientView<I, Q, P>,
    run: Run<R>,
    i: int,
    error: HttpClientError,
)
    requires
        client.is_run(run),
        0 <= i < run.events.len(),
        run.events[i] == Event::<R>::Sent(Err(error)),
    ensures
        client.config.retry is None ==> run.moments[i + 1].action !is Backoff,
        client.config.retry matches Some(retry) ==> (run.moments[i + 1].action is Backoff
            <==> run.sends(i) < retry.max_attempts && match error {
            HttpClientError::Timeout(_) => retry.retry_on_timeout,
            HttpClientError::Connection(_) => retry.retry_on_connection_error,
            HttpClientError::Response { status, .. } => retry.retry_status_codes@.contains(status),
            HttpClientError::Http(e) => {
                ||| e.timeout && retry.retry_on_timeout
                ||| !e.timeout && e.connect && retry.retry_on_connection_error
                ||| !e.timeout && !e.connect && e.status is Some
                    && retry.retry_status_codes@.contains(e.status->0)
            },
            _ => false,
        }),
{
    client.lemma_keeps(run, i);
    assert(client.goes_on(run, i));
}

/// Nothing but the outcome of an attempt leads to a wait, and the wait is counted
/// by the requests that were sent.
pub proof fn law_a_wait_follows_an_attempt<I, Q, P, R>(
    client: ClientView<I, Q, P>,
    run: Run<R>,
    i: int,
)
    requires
        client.is_run(run),
        0 <= i < run.moments.len(),
        run.moments[i].action is Backoff,
    ensures
        i > 0,
        run.events[i - 1] is Sent,
        run.moments[i].action->attempt == run.sends(i),
        run.sends(i) > 0,
{
    client.lemma_keeps(run, i);
    if i > 0 {
        client.lemma_keeps(run, i - 1);
        assert(client.goes_on(run, i - 1));
    }
}

/// The wait after `n` requests is the one that the backoff gives for `n`: none,
/// always the same, `n + 1` increments, or the initial delay multiplied `n` times
/// in whole milliseconds; the last two up to the maximum. Where the multiplier is
/// no whole number, all that goes into the product is handed out.
pub proof fn law_the_wait_is_the_configured_one<I, Q, P, R>(
    client: ClientView<I, Q, P>,
    run: Run<R>,
    i: int,
)
    requires
        client.is_run(run),
        0 <= i < run.moments.len(),
        run.moments[i].action is Backoff,
    ensures
        client.config.retry is Some,
        ({
            let n = run.sends(i);
            match client.config.retry->0.backoff {
                BackoffStrategy::Immediate => waits(run.moments[i].action, 0),
                BackoffStrategy::Constant(delay) => waits(
                    run.moments[i].action,
                    crate::clock::duration_nanos(delay) as int,
                ),
                BackoffStrategy::Linear { delay, max } => waits(
                    run.moments[i].action,
                    min(
                        crate::clock::duration_nanos(delay) * (n + 1) as int,
                        crate::clock::duration_nanos(max) as int,
                    ),
                ),
                BackoffStrategy::Exponential {
                    initial,
                    max,
                    multiplier: Multiplier::Whole(factor),
                } => {
                    let millis = (crate::clock::duration_nanos(initial) / 1_000_000) * pow(
                        factor as int,
                        n,
                    );
                    waits(
                        run.moments[i].action,
                        min(
                            min(millis, 0xFFFF_FFFF_FFFF_FFFF) * 1_000_000,
                            crate::clock::duration_nanos(max) as int,
                        ),
                    )
                },
                BackoffStrategy::Exponential {
                    initial,
                    max,
                    multiplier: Multiplier::Real(bits),
                } => {
                    &&& run.moments[i].action->delay matches Delay::Scaled(scaled)
                    &&& scaled.millis == crate::clock::duration_nanos(initial) / 1_000_000
                    &&& scaled.multiplier == bits
                    &&& scaled.exponent == min(n as int, 0x7FFF_FFFF)
                    &&& scaled.max == max
                },
            }
        }),
{
    client.lemma_keeps(run, i);
    if i > 0 {
        client.lemma_keeps(run, i - 1);
        assert(client.goes_on(run, i - 1));
    }
    let retry = client.config.retry->0;
    let attempt = run.moments[i].action->attempt;
    if let BackoffStrategy::Exponential { initial, max, multiplier } = retry.backoff {
        crate::retry_laws::lemma_scaled_is_not_negative(
            crate::clock::duration_nanos(initial) / 1_000_000,
            multiplier->Whole_0 as nat,
            attempt as nat,
        );
    }
    if let BackoffStrategy::Linear { delay, max } = retry.backoff {
        let step = crate::clock::duration_nanos(delay);
        assert(step * (attempt as int + 1) >= 0) by (nonlinear_arith);
    }
}

/// The action is to wait for this many nanoseconds.
pub open spec fn waits<R>(action: Action<R>, nanos: int) -> bool {
    &&& action matches Action::Backoff { delay: Delay::Fixed(wait), .. }
    &&& crate::clock::duration_nanos(wait) == nanos
}

/// An outcome that is not tried again is passed on: a response to the first
/// response interceptor, or to the caller where there is none, whatever its
/// status, and an error to the caller.
pub proof fn law_a_final_outcome_is_passed_on<I, Q, P, R>(
    client: ClientView<I, Q, P>,
    run: Run<R>,
    i: int,
)
    requires
        client.is_run(run),
        0 <= i < run.events.len(),
        run.events[i] is Sent,
        run.moments[i + 1].action !is Backoff,
    ensures
        match run.events[i]->Sent_0 {
            Err(error) => run.moments[i + 1].action == Action::<R>::Finish(Err(error)),
            Ok(response) => if client.interceptors.len() > 0 {
                run.moments[i + 1].action == (Action::<R>::InterceptResponse {
                    hook: ResponseHook::Interceptor(0),
                    response,
                })
            } else if client.response_interceptors.len() > 0 {
                run.moments[i + 1].action == (Action::<R>::InterceptResponse {
                    hook: ResponseHook::ResponseInterceptor(0),
                    response,
                })
            } else {
                run.moments[i + 1].action == Action::<R>::Finish(Ok(response))
            },
        },
{
    client.lemma_keeps(run, i);
    assert(client.goes_on(run, i));
}

/// What a response interceptor returned goes to the next one, and from the last
/// one to the caller; its error goes to the caller at once.
pub proof fn law_a_response_goes_from_interceptor_to_interceptor<I, Q, P, R>(
    client: ClientView<I, Q, P>,
    run: Run<R>,
    i: int,
    hook: ResponseHook,
)
    requires
        client.is_run(run),
        0 <= i < run.events.len(),
        run.moments[i].action is InterceptResponse,
        run.moments[i].action->InterceptResponse_hook == hook,
    ensures
        run.events[i] is ResponseIntercepted,
        match run.events[i]->ResponseIntercepted_0 {
            Err(error) => run.moments[i + 1].action == Action::<R>::Finish(Err(error)),
            Ok(response) => match hook {
                ResponseHook::Interceptor(k) => if k + 1 < client.interceptors.len() {
                    run.moments[i + 1].action == (Action::<R>::InterceptResponse {
                        hook: ResponseHook::Interceptor((k + 1) as usize),
                        response,
                    })
                } else if client.response_interceptors.len() > 0 {
                    run.moments[i + 1].action == (Action::<R>::InterceptResponse {
                        hook: ResponseHook::ResponseInterceptor(0),
                        response,
                    })
                } else {
                    run.moments[i + 1].action == Action::<R>::Finish(Ok(response))
                },
                ResponseHook::ResponseInterceptor(k) => if k + 1
                    < client.response_interceptors.len() {
                    run.moments[i + 1].action == (Action::<R>::InterceptResponse {
                        hook: ResponseHook::ResponseInterceptor((k + 1) as usize),
                        response,
                    })
                } else {
                    run.moments[i + 1].action == Action::<R>::Finish(Ok(response))
                },
            },
        },
{
    client.lemma_keeps(run, i);
    assert(client.goes_on(run, i));
}

/// What a request interceptor returned goes to the next one, and from the last
/// one to be described; its error goes to the caller at once.
pub proof fn law_a_request_goes_from_interceptor_to_interceptor<I, Q, P, R>(
    client: ClientView<I, Q, P>,
    run: Run<R>,
    i: int,
    hook: RequestHook,
)
    requires
        client.is_run(run),
        0 <= i < run.events.len(),
        run.moments[i].action is InterceptRequest,
        run.moments[i].action->InterceptRequest_hook == hook,
    ensures
        run.events[i] is RequestIntercepted,
        match run.events[i]->RequestIntercepted_0 {
            Err(error) => run.moments[i + 1].action == Action::<R>::Finish(Err(error)),
            Ok(request) => match hook {
                RequestHook::Interceptor(k) => if k + 1 < client.interceptors.len() {
                    run.moments[i + 1].action == (Action::InterceptRequest {
                        hook: RequestHook::Interceptor((k + 1) as usize),
                        request: Outgoing::Intercepted(request),
                    })
                } else if client.request_interceptors.len() > 0 {
                    run.moments[i + 1].action == (Action::InterceptRequest {
                        hook: RequestHook::RequestInterceptor(0),
                        request: Outgoing::Intercepted(request),
                    })
                } else {
                    run.moments[i + 1].action == Action::Describe(request)
                },
                RequestHook::RequestInterceptor(k) => if k + 1
                    < client.request_interceptors.len() {
                    run.moments[i + 1].action == (Action::InterceptRequest {
                        hook: RequestHook::RequestInterceptor((k + 1) as usize),
                        request: Outgoing::Intercepted(request),
                    })
                } else {
                    run.moments[i + 1].action == Action::Describe(request)
                },
            },
        },
{
    client.lemma_keeps(run, i);
    assert(client.goes_on(run, i));
}

/// The first thing that happens to an admitted request: the first combined
/// interceptor gets it, or else the first request-only one, with all that the
/// caller asked for; without any the first attempt is on.
pub proof fn law_an_admitted_request_begins<I, Q, P, R>(
    client: ClientView<I, Q, P>,
    run: Run<R>,
)
    requires
        client.is_run(run),
        run.moments[0].action != Action::<R>::Finish(Err(HttpClientError::CircuitOpen)),
    ensures
        client.interceptors.len() + client.request_interceptors.len() > 0 ==> {
            &&& run.moments[0].action matches Action::InterceptRequest {
                hook,
                request: Outgoing::Fresh(request),
            }
            &&& client.interceptors.len() > 0 ==> hook == RequestHook::Interceptor(0)
            &&& client.interceptors.len() == 0 ==> hook == RequestHook::RequestInterceptor(0)
            &&& crate::wire::method_text(request.method) == run.spec.method
            &&& request.url == run.spec.url
            &&& crate::header::header_entries(request.headers) == run.spec.headers
            &&& request.body is Some <==> run.spec.body is Some
            &&& request.body is Some ==> request.body->0@ == run.spec.body->0
            &&& request.timeout == run.spec.timeout
        },
        client.interceptors.len() + client.request_interceptors.len() == 0 ==> {
            &&& client.is_late(run, 0) <==> run.moments[0].action is Finish
            &&& !client.is_late(run, 0) <==> run.moments[0].action is Send
        },
{
    client.lemma_keeps(run, 0);
}

/// A request is rejected exactly where the circuit is open and its reset timeout
/// has not passed, or where it is half-open, or has just become so, and as many
/// requests as allowed have asked.
pub proof fn law_admission_follows_the_breaker<I, Q, P, R>(
    client: ClientView<I, Q, P>,
    run: Run<R>,
)
    requires
        client.is_run(run),
    ensures
        ({
            let first = run.moments[0];
            let rejected = match first.before {
                None => false,
                Some(b) => match b.state {
                    CircuitState::Closed => false,
                    CircuitState::HalfOpen => b.probes >= b.config.half_open_requests,
                    CircuitState::Open => {
                        ||| b.opened_at is None
                        ||| crate::clock::elapsed_nanos(first.now, b.opened_at->0)
                            < crate::clock::duration_nanos(b.config.reset_timeout)
                        ||| b.config.half_open_requests == 0
                    },
                },
            };
            &&& rejected <==> first.action == Action::<R>::Finish(
                Err(HttpClientError::CircuitOpen),
            )
            &&& first.before is None ==> first.after is None
            &&& first.before is Some ==> first.after == Some(
                first.before->0.at(first.now).asked(),
            )
        }),
{
    client.lemma_keeps(run, 0);
}

/// A described request is sent as the interceptors left it, unless it is refused
/// for its stream or no time is left.
pub proof fn law_a_described_request_is_sent<I, Q, P, R>(
    client: ClientView<I, Q, P>,
    run: Run<R>,
    i: int,
    request: R,
    parts: RequestParts,
)
    requires
        client.is_run(run),
        0 <= i < run.events.len(),
        run.events[i] == Event::Described(request, parts),
        !(parts.body is Streaming && client.config.retry is Some
            && client.config.retry->0.max_attempts > 1),
    ensures
        i + 1 == client.first_attempt(),
        !client.is_late(run, i + 1) ==> run.moments[i + 1].action == Action::Send(
            Outgoing::Intercepted(request),
        ),
        client.is_late(run, i + 1) ==> run.moments[i + 1].action matches Action::Finish(
            Err(HttpClientError::RetryExhausted { .. }),
        ),
{
    client.lemma_keeps(run, i);
    client.lemma_keeps(run, i + 1);
    assert(client.goes_on(run, i));
}

/// After a wait another request is sent, built anew, unless more time has passed
/// since the first attempt began than all attempts may take: then the caller is
/// told how many requests were sent and what the last one came to.
pub proof fn law_after_a_wait_comes_an_attempt<I, Q, P, R>(
    client: ClientView<I, Q, P>,
    run: Run<R>,
    i: int,
)
    requires
        client.is_run(run),
        0 <= i < run.events.len(),
        run.moments[i].action is Backoff,
    ensures
        run.events[i] is BackoffOver,
        !client.is_late(run, i + 1) ==> run.moments[i + 1].action matches Action::Send(
            Outgoing::Fresh(_),
        ),
        client.is_late(run, i + 1) ==> {
            &&& i > 0
            &&& run.moments[i + 1].action matches Action::Finish(
                Err(HttpClientError::RetryExhausted { attempts, message }),
            )
            &&& attempts == run.sends(i)
            &&& run.events[i - 1] matches Event::Sent(outcome)
            &&& match outcome {
                Err(error) => message@ == error.text(),
                Ok(response) => message@ == "Response error: "@ + crate::text::decimal(
                    response@.status as nat,
                ) + " - "@ + "Retriable status code"@,
            }
        },
{
    client.lemma_keeps(run, i);
    assert(client.goes_on(run, i));
    if i > 0 {
        client.lemma_keeps(run, i - 1);
        assert(client.goes_on(run, i - 1));
    }
}

/// Each action is answered by the event that tells what came of it, and by any
/// such event; nothing answers the last one.
pub proof fn law_every_action_awaits_its_outcome<I, Q, P, R>(
    client: ClientView<I, Q, P>,
    run: Run<R>,
    i: int,
    event: Event<R>,
)
    requires
        client.is_run(run),
        0 <= i < run.moments.len(),
    ensures
        run.moments[i].state.awaits(event) <==> match run.moments[i].action {
            Action::InterceptRequest { .. } => event is RequestIntercepted,
            Action::Describe(_) => event is Described,
            Action::Send(_) => event is Sent,
            Action::Backoff { .. } => event is BackoffOver,
            Action::InterceptResponse { .. } => event is ResponseIntercepted,
            Action::Finish(_) => false,
        },
{
    client.lemma_keeps(run, i);
}

/// An error of an attempt, of which reading the response is a part, is never
/// turned into a response: it is retried or it reaches the caller.
pub proof fn law_an_error_is_not_swallowed<I, Q, P, R>(
    client: ClientView<I, Q, P>,
    run: Run<R>,
    i: int,
    error: HttpClientError,
)
    requires
        client.is_run(run),
        0 <= i < run.events.len(),
        run.events[i] == Event::<R>::Sent(Err(error)) || run.events[i]
            == Event::<R>::RequestIntercepted(Err(error)) || run.events[i]
            == Event::<R>::ResponseIntercepted(Err(error)),
    ensures
        run.moments[i + 1].action == Action::<R>::Finish(Err(error)) || (run.events[i] is Sent
            && client.tries_again(run.moments[i].state.attempt, Err(error))
            && run.moments[i + 1].action is Backoff && run.moments[i + 1].state.last_error == Some(
            error,
        )),
{
    assert(client.goes_on(run, i));
}

/// Where the time for attempts is over, the caller is told how many requests
/// were sent and what the last of them came to.
pub proof fn law_exhaustion_counts_the_attempts_made<I, Q, P, R>(
    client: ClientView<I, Q, P>,
    run: Run<R>,
    i: int,
)
    requires
        client.is_run(run),
        0 <= i < run.moments.len(),
        i == 0 || !(run.events[i - 1] is RequestIntercepted || run.events[i - 1] is Sent
            || run.events[i - 1] is ResponseIntercepted),
        run.moments[i].action matches Action::Finish(Err(HttpClientError::RetryExhausted { .. })),
    ensures
        run.moments[i].action->Finish_0->Err_0->attempts == run.sends(i),
        run.moments[i].action->Finish_0->Err_0->RetryExhausted_message@
            == run.moments[i].state.last_message(),
        run.moments[i].state.last_error is None
            ==> run.moments[i].action->Finish_0->Err_0->RetryExhausted_message@
            == "Unknown error"@,
        run.moments[i].state.last_error is Some
            ==> run.moments[i].action->Finish_0->Err_0->RetryExhausted_message@
            == run.moments[i].state.last_error->0.text(),
{
    reveal_with_fuel(Run::sends, 2);
    client.lemma_keeps(run, i);
    if i > 0 {
        client.lemma_keeps(run, i - 1);
        assert(client.goes_on(run, i - 1));
    }
}

/// The breaker after attempts with these outcomes, recorded at `times`.
pub open spec fn after_attempts(
    breaker: BreakerView,
    outcomes: Seq<Result<Response, HttpClientError>>,
    times: Seq<Instant>,
) -> Option<BreakerView>
    decreases outcomes.len(),
{
    if outcomes.len() == 0 {
        Some(breaker)
    } else {
        crate::execution::recorded(
            after_attempts(breaker, outcomes.drop_last(), times.drop_last()),
            crate::execution::attempt_failed(outcomes.last()),
            times.last(),
        )
    }
}

/// An attempt counts as a failure exactly where it came to an error, to a status
/// of 500 to 599 or to 429.
pub proof fn law_what_counts_as_a_failure(response: Response, error: HttpClientError)
    ensures
        crate::execution::attempt_failed(Ok(response)) <==> 500 <= response@.status <= 599
            || response@.status == 429,
        crate::execution::attempt_failed(Err(error)),
        crate::execution::failure_status(response@.status) <==> 500 <= response@.status <= 599
            || response@.status == 429,
{
}

/// What is known of a circuit breaker is what it shows, where there is one.
pub proof fn law_a_breaker_shows_itself(breaker: CircuitBreaker)
    ensures
        crate::execution::breaker_view(None) is None,
        crate::execution::breaker_view(Some(breaker)) == Some(breaker@),
{
}

/// Recording an outcome with a breaker changes it as a failure or a success does,
/// and does nothing without one.
pub proof fn law_an_outcome_is_recorded_as_what_it_is(breaker: BreakerView, now: Instant)
    ensures
        crate::execution::recorded(None, true, now) is None,
        crate::execution::recorded(None, false, now) is None,
        crate::execution::recorded(Some(breaker), true, now) == Some(breaker.failed(now)),
        crate::execution::recorded(Some(breaker), false, now) == Some(breaker.succeeded()),
{
}

/// The phase of an execution names the action that was handed out last.
pub proof fn law_the_phase_names_the_action<I, Q, P, R>(
    client: ClientView<I, Q, P>,
    run: Run<R>,
    i: int,
)
    requires
        client.is_run(run),
        0 <= i < run.moments.len(),
    ensures
        run.moments[i].state.phase == match run.moments[i].action {
            Action::InterceptRequest { hook, .. } => Phase::InterceptingRequest(hook),
            Action::Describe(_) => Phase::Describing,
            Action::Send(_) => Phase::Sending,
            Action::Backoff { .. } => Phase::BackingOff,
            Action::InterceptResponse { hook, .. } => Phase::InterceptingResponse(hook),
            Action::Finish(_) => Phase::Finished,
        },
{
    client.lemma_keeps(run, i);
}

proof fn lemma_failing_attempts_are_failures(
    breaker: BreakerView,
    outcomes: Seq<Result<Response, HttpClientError>>,
    times: Seq<Instant>,
)
    requires
        outcomes.len() == times.len(),
        forall|i: int|
            0 <= i < outcomes.len() ==> (#[trigger] outcomes[i] is Err || 500
                <= outcomes[i]->Ok_0@.status <= 599 || outcomes[i]->Ok_0@.status == 429),
    ensures
        after_attempts(breaker, outcomes, times) == Some(
            crate::breaker_laws::after_failures(breaker, times),
        ),
    decreases outcomes.len(),
{
    if outcomes.len() > 0 {
        lemma_failing_attempts_are_failures(breaker, outcomes.drop_last(), times.drop_last());
        let last = outcomes[outcomes.len() - 1];
        assert(last is Err || 500 <= last->Ok_0@.status <= 599 || last->Ok_0@.status == 429);
    }
}

/// A closed circuit with no failure counted opens on as many failing attempts in
/// a row as the threshold says, be they errors or responses with a failing
/// status. Until the reset timeout has passed, the client then rejects every
/// request without sending it.
pub proof fn law_failing_attempts_open_the_circuit<I, Q, P, R>(
    client: ClientView<I, Q, P>,
    breaker: BreakerView,
    outcomes: Seq<Result<Response, HttpClientError>>,
    times: Seq<Instant>,
    run: Run<R>,
)
    requires
        breaker.state is Closed,
        breaker.failures == 0,
        outcomes.len() == times.len(),
        times.len() == crate::breaker_laws::failures_to_open(breaker.config),
        forall|i: int|
            0 <= i < outcomes.len() ==> (#[trigger] outcomes[i] is Err || 500
                <= outcomes[i]->Ok_0@.status <= 599 || outcomes[i]->Ok_0@.status == 429),
        crate::breaker_laws::spaced_within(
            times,
            crate::clock::duration_nanos(breaker.config.failure_window),
        ),
        client.is_run(run),
        run.moments[0].before == after_attempts(breaker, outcomes, times),
        crate::clock::elapsed_nanos(run.moments[0].now, times.last())
            < crate::clock::duration_nanos(breaker.config.reset_timeout),
    ensures
        run.moments.len() == 1,
        run.moments[0].action == Action::<R>::Finish(Err(HttpClientError::CircuitOpen)),
{
    lemma_failing_attempts_are_failures(breaker, outcomes, times);
    crate::breaker_laws::law_repeated_failures_open_the_circuit(breaker, times);
    law_a_rejected_request_is_not_sent(client, run);
}

} // verus!
