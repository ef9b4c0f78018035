//! Carrying out a request: admission, interceptors, attempts and retries.
//!
//! An [`Execution`] decides and whoever drives it acts: it hands out an
//! [`Action`], is told by an [`Event`] what came of it, and hands out the next
//! one, until the action is to finish.

use crate::circuit_breaker::{BreakerView, CircuitBreaker};
use crate::client::{ClientView, HttpClient};
use crate::error::HttpClientError;
use crate::request::{Request, RequestSpec, RequestView};
use crate::response::Response;
use crate::retry::{Delay, RetryStrategy};
use http::{HeaderMap, Method};
use std::time::Instant;
use url::Url;
use vstd::prelude::*;

verus! {

/// The body of a request that interceptors have worked on.
#[derive(Debug)]
pub enum Body {
    /// There is none.
    Absent,
    /// Its bytes are at hand.
    Buffered(Vec<u8>),
    /// It is a stream, which can be sent only once.
    Streaming,
}

/// What a request that interceptors have worked on consists of.
#[derive(Debug)]
pub struct RequestParts {
    pub method: Method,
    pub url: Url,
    pub headers: HeaderMap,
    pub body: Body,
}

/// A request on its way out: `R` stands for one that interceptors have worked on.
#[derive(Debug)]
pub enum Outgoing<R> {
    /// Built from what the caller asked for.
    Fresh(Request),
    /// As the interceptors left it.
    Intercepted(R),
}

/// An interceptor's place in the request phase.
#[derive(Debug, Clone, Copy, PartialEq, Eq, Structural)]
pub enum RequestHook {
    /// The request phase of a combined interceptor.
    Interceptor(usize),
    /// A request-only interceptor.
    RequestInterceptor(usize),
}

/// An interceptor's place in the response phase.
#[derive(Debug, Clone, Copy, PartialEq, Eq, Structural)]
pub enum ResponseHook {
    /// The response phase of a combined interceptor.
    Interceptor(usize),
    /// A response-only interceptor.
    ResponseInterceptor(usize),
}

/// What is to be done next.
#[derive(Debug)]
pub enum Action<R> {
    /// Run this interceptor on the request.
    InterceptRequest {
        hook: RequestHook,
        request: Outgoing<R>,
    },
    /// Say what the intercepted request consists of.
    Describe(R),
    /// Send the request and read the whole response.
    Send(Outgoing<R>),
    /// Wait before attempt number `attempt`, counted from zero.
    Backoff {
        attempt: u32,
        delay: Delay,
    },
    /// Run this interceptor on the response.
    InterceptResponse {
        hook: ResponseHook,
        response: Response,
    },
    /// Return this to the caller.
    Finish(Result<Response, HttpClientError>),
}

/// What came of an action.
#[derive(Debug)]
pub enum Event<R> {
    /// A request interceptor returned.
    RequestIntercepted(Result<R, HttpClientError>),
    /// The intercepted request is described.
    Described(R, RequestParts),
    /// The request was sent.
    Sent(Result<Response, HttpClientError>),
    /// The wait is over.
    BackoffOver,
    /// A response interceptor returned.
    ResponseIntercepted(Result<Response, HttpClientError>),
}

/// How far an execution has come: the action whose outcome it awaits.
#[derive(Debug, Clone, Copy, PartialEq, Eq, Structural)]
pub enum Phase {
    InterceptingRequest(RequestHook),
    Describing,
    Sending,
    BackingOff,
    InterceptingResponse(ResponseHook),
    Finished,
}

/// What an execution knows.
pub struct ExecutionView<R> {
    /// The request that every attempt is built from.
    pub spec: RequestView,
    pub phase: Phase,
    /// The request that the interceptors left, until it is sent.
    pub intercepted: Option<R>,
    /// The number of the current attempt, counted from zero.
    pub attempt: u32,
    /// Why the last attempt was not the last.
    pub last_error: Option<HttpClientError>,
    /// When the first attempt began.
    pub started: Instant,
}

impl<R> ExecutionView<R> {
    /// The event answers the action that was handed out last.
    pub open spec fn awaits(self, event: Event<R>) -> bool {
        match event {
            Event::RequestIntercepted(_) => self.phase is InterceptingRequest,
            Event::Described(_, _) => self.phase is Describing,
            Event::Sent(_) => self.phase is Sending,
            Event::BackoffOver => self.phase is BackingOff,
            Event::ResponseIntercepted(_) => self.phase is InterceptingResponse,
        }
    }

    /// The execution in another phase.
    pub open spec fn in_phase(self, phase: Phase) -> Self {
        ExecutionView { phase, ..self }
    }

    /// The execution about to make another attempt after `error`.
    pub open spec fn retrying(self, error: HttpClientError) -> Self {
        ExecutionView {
            phase: Phase::BackingOff,
            attempt: (self.attempt + 1) as u32,
            last_error: Some(error),
            ..self
        }
    }

    /// What is said of the last error when no time is left for another attempt.
    pub open spec fn last_message(self) -> Seq<char> {
        match self.last_error {
            Some(e) => e.text(),
            None => "Unknown error"@,
        }
    }
}

/// The bytes of a described body that can be sent again.
pub open spec fn buffered(body: Body) -> Option<Seq<u8>> {
    match body {
        Body::Buffered(bytes) => Some(bytes@),
        _ => None,
    }
}

/// The request with what the interceptors made of it.
pub open spec fn folded(spec: RequestView, parts: RequestParts) -> RequestView {
    RequestView {
        method: crate::wire::method_text(parts.method),
        url: parts.url,
        headers: crate::header::header_entries(parts.headers),
        body: buffered(parts.body),
        timeout: spec.timeout,
    }
}

/// A response status that counts as a failure with the circuit breaker: a server
/// error or rate limiting.
pub open spec fn failure_status(status: u16) -> bool {
    500 <= status < 600 || status == 429
}

pub open spec fn breaker_view(breaker: Option<CircuitBreaker>) -> Option<BreakerView> {
    match breaker {
        Some(b) => Some(b@),
        None => None,
    }
}

/// The breaker after the outcome of an attempt was recorded.
pub open spec fn recorded(breaker: Option<BreakerView>, failure: bool, now: Instant) -> Option<
    BreakerView,
> {
    match breaker {
        Some(b) => Some(
            if failure {
                b.failed(now)
            } else {
                b.succeeded()
            },
        ),
        None => None,
    }
}

/// The attempt failed: it came to nothing, or to a failing status.
pub open spec fn attempt_failed(outcome: Result<Response, HttpClientError>) -> bool {
    match outcome {
        Ok(response) => failure_status(response@.status),
        Err(_) => true,
    }
}

impl<I, Q, P> ClientView<I, Q, P> {
    /// The first request-only interceptor, if there is one.
    pub open spec fn first_request_only(self) -> Option<RequestHook> {
        if self.request_interceptors.len() > 0 {
            Some(RequestHook::RequestInterceptor(0))
        } else {
            None
        }
    }

    /// The interceptor that works on the request after `hook`: the combined ones
    /// in order, then the request-only ones in order.
    pub open spec fn next_request_hook(self, hook: Option<RequestHook>) -> Option<RequestHook> {
        match hook {
            None => if self.interceptors.len() > 0 {
                Some(RequestHook::Interceptor(0))
            } else {
                self.first_request_only()
            },
            Some(RequestHook::Interceptor(i)) => if i + 1 < self.interceptors.len() {
                Some(RequestHook::Interceptor((i + 1) as usize))
            } else {
                self.first_request_only()
            },
            Some(RequestHook::RequestInterceptor(i)) => if i + 1 < self.request_interceptors.len() {
                Some(RequestHook::RequestInterceptor((i + 1) as usize))
            } else {
                None
            },
        }
    }

    /// The first response-only interceptor, if there is one.
    pub open spec fn first_response_only(self) -> Option<ResponseHook> {
        if self.response_interceptors.len() > 0 {
            Some(ResponseHook::ResponseInterceptor(0))
        } else {
            None
        }
    }

    /// The interceptor that works on the response after `hook`: the combined
    /// ones in order, then the response-only ones in order.
    pub open spec fn next_response_hook(self, hook: Option<ResponseHook>) -> Option<ResponseHook> {
        match hook {
            None => if self.interceptors.len() > 0 {
                Some(ResponseHook::Interceptor(0))
            } else {
                self.first_response_only()
            },
            Some(ResponseHook::Interceptor(i)) => if i + 1 < self.interceptors.len() {
                Some(ResponseHook::Interceptor((i + 1) as usize))
            } else {
                self.first_response_only()
            },
            Some(ResponseHook::ResponseInterceptor(i)) => if i + 1
                < self.response_interceptors.len() {
                Some(ResponseHook::ResponseInterceptor((i + 1) as usize))
            } else {
                None
            },
        }
    }

    /// The hook names an interceptor that the client has.
    pub open spec fn has_request_hook(self, hook: RequestHook) -> bool {
        match hook {
            RequestHook::Interceptor(i) => i < self.interceptors.len(),
            RequestHook::RequestInterceptor(i) => i < self.request_interceptors.len(),
        }
    }

    /// The hook names an interceptor that the client has.
    pub open spec fn has_response_hook(self, hook: ResponseHook) -> bool {
        match hook {
            ResponseHook::Interceptor(i) => i < self.interceptors.len(),
            ResponseHook::ResponseInterceptor(i) => i < self.response_interceptors.len(),
        }
    }

    /// At most how many attempts are made: one without retries, else the
    /// configured number and at least one.
    pub open spec fn max_attempts(self) -> nat {
        match self.config.retry {
            Some(retry) => if retry.max_attempts == 0 {
                1
            } else {
                retry.max_attempts as nat
            },
            None => 1,
        }
    }

    /// The time for all attempts is over at `check`.
    pub open spec fn out_of_time(self, started: Instant, check: Instant) -> bool {
        &&& self.config.retry is Some
        &&& self.config.retry->0.max_retry_time is Some
        &&& crate::clock::elapsed_nanos(check, started) > crate::clock::duration_nanos(
            self.config.retry->0.max_retry_time->0,
        )
    }

    /// Another attempt follows an attempt with this outcome.
    pub open spec fn tries_again(
        self,
        attempt: u32,
        outcome: Result<Response, HttpClientError>,
    ) -> bool {
        match self.config.retry {
            Some(retry) => attempt + 1 < retry.max_attempts && match outcome {
                Ok(response) => retry.retry_status_codes@.contains(response@.status),
                Err(e) => retry.retries_error(e),
            },
            None => false,
        }
    }

    /// What an execution keeps at all times.
    pub open spec fn sound<R>(self, run: ExecutionView<R>) -> bool {
        &&& run.attempt < self.max_attempts()
        &&& match run.phase {
            Phase::InterceptingRequest(hook) => self.has_request_hook(hook) && run.attempt == 0,
            Phase::Describing => run.attempt == 0,
            Phase::InterceptingResponse(hook) => self.has_response_hook(hook),
            _ => true,
        }
    }

    /// The next attempt begins: it is sent, or no time is left for it, and the
    /// attempts made so far are all there are. The intercepted request is sent if it has not been
    /// yet, else one built from the spec.
    pub open spec fn attempts<R>(
        self,
        run: ExecutionView<R>,
        check: Instant,
        next: ExecutionView<R>,
        action: Action<R>,
    ) -> bool {
        if self.out_of_time(run.started, check) {
            &&& next == run.in_phase(Phase::Finished)
            &&& action matches Action::Finish(
                Err(HttpClientError::RetryExhausted { attempts, message }),
            )
            &&& attempts == run.attempt
            &&& message@ == run.last_message()
        } else {
            &&& next == (ExecutionView { phase: Phase::Sending, intercepted: None::<R>, ..run })
            &&& match run.intercepted {
                Some(request) => action == Action::Send(Outgoing::Intercepted(request)),
                None => action matches Action::Send(Outgoing::Fresh(request)) && request@
                    == run.spec,
            }
        }
    }

    /// The response goes on to the interceptor after `hook`, or to the caller.
    pub open spec fn passes_on<R>(
        self,
        run: ExecutionView<R>,
        hook: Option<ResponseHook>,
        response: Response,
        next: ExecutionView<R>,
        action: Action<R>,
    ) -> bool {
        match self.next_response_hook(hook) {
            Some(hook) => {
                &&& next == run.in_phase(Phase::InterceptingResponse(hook))
                &&& action == Action::<R>::InterceptResponse { hook, response }
            },
            None => {
                &&& next == run.in_phase(Phase::Finished)
                &&& action == Action::<R>::Finish(Ok(response))
            },
        }
    }

    /// The execution ends with this error.
    pub open spec fn gives_up<R>(
        self,
        run: ExecutionView<R>,
        error: HttpClientError,
        next: ExecutionView<R>,
        action: Action<R>,
    ) -> bool {
        &&& next == run.in_phase(Phase::Finished)
        &&& action == Action::<R>::Finish(Err(error))
    }

    /// `error` stands for an attempt whose outcome is not good enough.
    pub open spec fn is_reason(
        self,
        outcome: Result<Response, HttpClientError>,
        error: HttpClientError,
    ) -> bool {
        match outcome {
            Ok(response) => {
                &&& error matches HttpClientError::Response { status, message }
                &&& status == response@.status
                &&& message@ == "Retriable status code"@
            },
            Err(e) => error == e,
        }
    }

    /// An execution begins: it is refused where the circuit breaker does not
    /// admit it, else the first interceptor or the first attempt is on.
    pub open spec fn begins<R>(
        self,
        spec: RequestView,
        breaker: Option<BreakerView>,
        now: Instant,
        check: Instant,
        next: ExecutionView<R>,
        breaker_next: Option<BreakerView>,
        action: Action<R>,
    ) -> bool {
        let fresh = ExecutionView::<R> {
            spec,
            phase: Phase::Finished,
            intercepted: None,
            attempt: 0,
            last_error: None,
            started: now,
        };
        &&& breaker_next == match breaker {
            Some(b) => Some(b.at(now).asked()),
            None => None,
        }
        &&& if breaker is Some && !breaker->0.at(now).admits() {
            self.gives_up(fresh, HttpClientError::CircuitOpen, next, action)
        } else {
            match self.next_request_hook(None) {
                Some(first) => {
                    &&& next == fresh.in_phase(Phase::InterceptingRequest(first))
                    &&& action matches Action::InterceptRequest {
                        hook,
                        request: Outgoing::Fresh(request),
                    }
                    &&& hook == first
                    &&& request@ == spec
                },
                None => self.attempts(fresh, check, next, action),
            }
        }
    }

    /// An execution goes on after an event.
    pub open spec fn steps<R>(
        self,
        run: ExecutionView<R>,
        breaker: Option<BreakerView>,
        event: Event<R>,
        now: Instant,
        check: Instant,
        next: ExecutionView<R>,
        breaker_next: Option<BreakerView>,
        action: Action<R>,
    ) -> bool {
        match event {
            Event::RequestIntercepted(Err(e)) => {
                &&& breaker_next == breaker
                &&& self.gives_up(run, e, next, action)
            },
            Event::RequestIntercepted(Ok(request)) => {
                &&& breaker_next == breaker
                &&& match self.next_request_hook(Some(run.phase->InterceptingRequest_0)) {
                    Some(hook) => {
                        &&& next == run.in_phase(Phase::InterceptingRequest(hook))
                        &&& action == Action::InterceptRequest {
                            hook,
                            request: Outgoing::Intercepted(request),
                        }
                    },
                    None => {
                        &&& next == run.in_phase(Phase::Describing)
                        &&& action == Action::Describe(request)
                    },
                }
            },
            Event::Described(request, parts) => {
                &&& breaker_next == breaker
                &&& if self.max_attempts() > 1 && parts.body is Streaming {
                    self.gives_up(run, HttpClientError::StreamingBodyNotRetryable, next, action)
                } else {
                    self.attempts(
                        ExecutionView {
                            spec: folded(run.spec, parts),
                            intercepted: Some(request),
                            started: now,
                            ..run
                        },
                        check,
                        next,
                        action,
                    )
                }
            },
            Event::Sent(outcome) => {
                &&& breaker_next == recorded(breaker, attempt_failed(outcome), now)
                &&& if self.tries_again(run.attempt, outcome) {
                    &&& next.last_error is Some
                    &&& self.is_reason(outcome, next.last_error->0)
                    &&& next == run.retrying(next.last_error->0)
                    &&& action matches Action::Backoff { attempt, delay }
                    &&& attempt == run.attempt + 1
                    &&& self.config.retry->0.backoff.is_delay_for(attempt, delay)
                } else {
                    match outcome {
                        Ok(response) => self.passes_on(run, None, response, next, action),
                        Err(e) => self.gives_up(run, e, next, action),
                    }
                }
            },
            Event::BackoffOver => {
                &&& breaker_next == breaker
                &&& self.attempts(run, check, next, action)
            },
            Event::ResponseIntercepted(Err(e)) => {
                &&& breaker_next == breaker
                &&& self.gives_up(run, e, next, action)
            },
            Event::ResponseIntercepted(Ok(response)) => {
                &&& breaker_next == breaker
                &&& self.passes_on(
                    run,
                    Some(run.phase->InterceptingResponse_0),
                    response,
                    next,
                    action,
                )
            },
        }
    }
}

/// A request being carried out on behalf of a client.
#[derive(Debug)]
pub struct Execution<'a, I, Q, P, R> {
    client: &'a HttpClient<I, Q, P>,
    spec: RequestSpec,
    phase: Phase,
    intercepted: Option<R>,
    attempt: u32,
    last_error: Option<HttpClientError>,
    started: Instant,
}

impl<'a, I, Q, P, R> View for Execution<'a, I, Q, P, R> {
    type V = ExecutionView<R>;

    closed spec fn view(&self) -> ExecutionView<R> {
        ExecutionView {
            spec: self.spec@,
            phase: self.phase,
            intercepted: self.intercepted,
            attempt: self.attempt,
            last_error: self.last_error,
            started: self.started,
        }
    }
}

/// Whether a response status should count as a circuit-breaker failure.
///
/// Mirrors the set of statuses that are retried by default (server errors and
/// rate limiting), but is independent of retry configuration so the breaker
/// still works when no retry policy is configured.
pub fn is_failure_status(status: http::StatusCode) -> (r: bool)
    ensures
        r == failure_status(crate::wire::status_number(status)),
{
    status.is_server_error() || status.as_u16() == 429
}

/// Records the outcome of an attempt with the circuit breaker, if there is one.
pub fn record_outcome(
    breaker: &mut Option<CircuitBreaker>,
    outcome: &Result<Response, HttpClientError>,
    now: Instant,
)
    ensures
        breaker_view(*final(breaker)) == recorded(
            breaker_view(*old(breaker)),
            attempt_failed(*outcome),
            now,
        ),
{
    let failure = match outcome {
        Ok(response) => is_failure_status(response.status()),
        Err(_) => true,
    };
    match breaker {
        Some(b) => {
            if failure {
                b.record_failure_at(now);
            } else {
                b.record_success();
            }
        },
        None => {},
    }
}

impl<I, Q, P> HttpClient<I, Q, P> {
    /// Execute a request with retry and circuit breaker logic, with the clock
    /// read at `now` and once more at `check`.
    pub fn execute_at<R>(
        &self,
        spec: RequestSpec,
        breaker: &mut Option<CircuitBreaker>,
        now: Instant,
        check: Instant,
    ) -> (r: (Execution<'_, I, Q, P, R>, Action<R>))
        ensures
            r.0.client_view() == self@,
            self@.sound(r.0@),
            self@.begins(
                spec@,
                breaker_view(*old(breaker)),
                now,
                check,
                r.0@,
                breaker_view(*final(breaker)),
                r.1,
            ),
    {
        let mut run = Execution {
            client: self,
            spec,
            phase: Phase::Finished,
            intercepted: None,
            attempt: 0,
            last_error: None,
            started: now,
        };
        let admitted = match breaker {
            Some(b) => b.is_allowed_at(now),
            None => true,
        };
        if !admitted {
            return (run, Action::Finish(Err(HttpClientError::CircuitOpen)));
        }
        let action = match self.request_hook_after(None) {
            Some(hook) => {
                run.phase = Phase::InterceptingRequest(hook);
                Action::InterceptRequest { hook, request: Outgoing::Fresh(run.spec.to_request()) }
            },
            None => run.begin_attempt(check),
        };
        (run, action)
    }

    /// Execute a request with retry and circuit breaker logic: the first action,
    /// and the execution that it begins.
    pub fn execute<R>(&self, spec: RequestSpec, breaker: &mut Option<CircuitBreaker>) -> (r: (
        Execution<'_, I, Q, P, R>,
        Action<R>,
    ))
        ensures
            r.0.client_view() == self@,
            self@.sound(r.0@),
            exists|now: Instant, check: Instant|
                #[trigger] self@.begins(
                    spec@,
                    breaker_view(*old(breaker)),
                    now,
                    check,
                    r.0@,
                    breaker_view(*final(breaker)),
                    r.1,
                ),
    {
        let now = Instant::now();
        self.execute_at(spec, breaker, now, Instant::now())
    }

    /// The interceptor that works on the request after `hook`.
    fn request_hook_after(&self, hook: Option<RequestHook>) -> (r: Option<RequestHook>)
        requires
            hook is Some ==> self@.has_request_hook(hook->0),
        ensures
            r == self@.next_request_hook(hook),
            r is Some ==> self@.has_request_hook(r->0),
    {
        let combined: usize = self.interceptors().len();
        let request_only: usize = self.request_interceptors().len();
        let first_request_only = if request_only > 0 {
            Some(RequestHook::RequestInterceptor(0))
        } else {
            None
        };
        match hook {
            None => if combined > 0 {
                Some(RequestHook::Interceptor(0))
            } else {
                first_request_only
            },
            Some(RequestHook::Interceptor(i)) => if i + 1 < combined {
                Some(RequestHook::Interceptor(i + 1))
            } else {
                first_request_only
            },
            Some(RequestHook::RequestInterceptor(i)) => if i + 1 < request_only {
                Some(RequestHook::RequestInterceptor(i + 1))
            } else {
                None
            },
        }
    }

    /// The interceptor that works on the response after `hook`.
    fn response_hook_after(&self, hook: Option<ResponseHook>) -> (r: Option<ResponseHook>)
        requires
            hook is Some ==> self@.has_response_hook(hook->0),
        ensures
            r == self@.next_response_hook(hook),
            r is Some ==> self@.has_response_hook(r->0),
    {
        let combined: usize = self.interceptors().len();
        let response_only: usize = self.response_interceptors().len();
        let first_response_only = if response_only > 0 {
            Some(ResponseHook::ResponseInterceptor(0))
        } else {
            None
        };
        match hook {
            None => if combined > 0 {
                Some(ResponseHook::Interceptor(0))
            } else {
                first_response_only
            },
            Some(ResponseHook::Interceptor(i)) => if i + 1 < combined {
                Some(ResponseHook::Interceptor(i + 1))
            } else {
                first_response_only
            },
            Some(ResponseHook::ResponseInterceptor(i)) => if i + 1 < response_only {
                Some(ResponseHook::ResponseInterceptor(i + 1))
            } else {
                None
            },
        }
    }
}

impl<'a, I, Q, P, R> Execution<'a, I, Q, P, R> {
    /// The client on whose behalf the request is carried out.
    pub closed spec fn client_view(&self) -> ClientView<I, Q, P> {
        self.client@
    }

    /// How far the execution has come.
    pub fn phase(&self) -> (r: Phase)
        ensures
            r == self@.phase,
    {
        self.phase
    }

    /// Begin the next attempt.
    fn begin_attempt(&mut self, check: Instant) -> (action: Action<R>)
        requires
            old(self)@.attempt < old(self).client_view().max_attempts(),
        ensures
            final(self).client_view() == old(self).client_view(),
            old(self).client_view().attempts(old(self)@, check, final(self)@, action),
    {
        let late = match &self.client.config().retry {
            Some(retry) => match retry.max_retry_time {
                Some(max_time) => check.duration_since(self.started).as_nanos()
                    > max_time.as_nanos(),
                None => false,
            },
            None => false,
        };
        if late {
            let message = match &self.last_error {
                Some(e) => e.message(),
                None => "Unknown error".to_string(),
            };
            self.phase = Phase::Finished;
            return Action::Finish(
                Err(HttpClientError::RetryExhausted { attempts: self.attempt, message }),
            );
        }
        self.phase = Phase::Sending;
        match self.intercepted.take() {
            Some(request) => Action::Send(Outgoing::Intercepted(request)),
            None => Action::Send(Outgoing::Fresh(self.spec.to_request())),
        }
    }

    /// Hand the response to the interceptor after `hook`, or to the caller.
    fn pass_on(&mut self, hook: Option<ResponseHook>, response: Response) -> (action: Action<R>)
        requires
            hook is Some ==> old(self).client_view().has_response_hook(hook->0),
        ensures
            final(self).client_view() == old(self).client_view(),
            old(self).client_view().passes_on(old(self)@, hook, response, final(self)@, action),
            final(self)@.phase matches Phase::InterceptingResponse(hook)
                ==> old(self).client_view().has_response_hook(hook),
    {
        match self.client.response_hook_after(hook) {
            Some(next) => {
                self.phase = Phase::InterceptingResponse(next);
                Action::InterceptResponse { hook: next, response }
            },
            None => {
                self.phase = Phase::Finished;
                Action::Finish(Ok(response))
            },
        }
    }

    /// End the execution with an error.
    fn give_up(&mut self, error: HttpClientError) -> (action: Action<R>)
        ensures
            final(self).client_view() == old(self).client_view(),
            old(self).client_view().gives_up(old(self)@, error, final(self)@, action),
    {
        self.phase = Phase::Finished;
        Action::Finish(Err(error))
    }

    /// Go on after all request interceptors have run, with what they made of
    /// the request.
    fn fold(&mut self, request: R, parts: RequestParts, now: Instant, check: Instant) -> (action:
        Action<R>)
        requires
            old(self)@.attempt == 0,
        ensures
            final(self).client_view() == old(self).client_view(),
            old(self).client_view().steps(
                old(self)@,
                None,
                Event::Described(request, parts),
                now,
                check,
                final(self)@,
                None,
                action,
            ),
            final(self)@.phase is Sending || final(self)@.phase is Finished,
            final(self)@.attempt == 0,
    {
        let retries_possible = match &self.client.config().retry {
            Some(retry) => retry.max_attempts > 1,
            None => false,
        };
        let body = match parts.body {
            Body::Streaming => {
                if retries_possible {
                    return self.give_up(HttpClientError::StreamingBodyNotRetryable);
                }
                None
            },
            Body::Buffered(bytes) => Some(bytes),
            Body::Absent => None,
        };
        self.spec = RequestSpec {
            method: parts.method,
            url: parts.url,
            headers: parts.headers,
            body,
            timeout: self.spec.timeout,
        };
        self.intercepted = Some(request);
        self.started = now;
        self.begin_attempt(check)
    }

    /// Go on after an attempt, whose outcome has been recorded.
    fn judge(&mut self, outcome: Result<Response, HttpClientError>, now: Instant, check: Instant)
        -> (action: Action<R>)
        requires
            old(self).client_view().sound(old(self)@),
        ensures
            final(self).client_view() == old(self).client_view(),
            old(self).client_view().sound(final(self)@),
            old(self).client_view().steps(
                old(self)@,
                None,
                Event::Sent(outcome),
                now,
                check,
                final(self)@,
                None,
                action,
            ),
    {
        let client = self.client;
        match &client.config().retry {
            Some(retry) => {
                let again = match &outcome {
                    Ok(response) => retry.should_retry_status(response.status().as_u16()),
                    Err(e) => retry.should_retry(self.attempt, e),
                };
                if again && self.attempt + 1 < retry.max_attempts {
                    let reason = match outcome {
                        Ok(response) => HttpClientError::Response {
                            status: response.status().as_u16(),
                            message: "Retriable status code".to_string(),
                        },
                        Err(e) => e,
                    };
                    self.last_error = Some(reason);
                    self.attempt = self.attempt + 1;
                    self.phase = Phase::BackingOff;
                    return Action::Backoff {
                        attempt: self.attempt,
                        delay: retry.backoff.backoff_for_attempt(self.attempt),
                    };
                }
            },
            None => {},
        }
        match outcome {
            Ok(response) => self.pass_on(None, response),
            Err(e) => self.give_up(e),
        }
    }

    /// Go on after an event, with the clock read at `now` and once more at
    /// `check`: what to do next.
    pub fn advance_at(
        &mut self,
        breaker: &mut Option<CircuitBreaker>,
        event: Event<R>,
        now: Instant,
        check: Instant,
    ) -> (action: Action<R>)
        requires
            old(self).client_view().sound(old(self)@),
            old(self)@.awaits(event),
        ensures
            final(self).client_view() == old(self).client_view(),
            old(self).client_view().sound(final(self)@),
            old(self).client_view().steps(
                old(self)@,
                breaker_view(*old(breaker)),
                event,
                now,
                check,
                final(self)@,
                breaker_view(*final(breaker)),
                action,
            ),
    {
        match event {
            Event::RequestIntercepted(Err(e)) => self.give_up(e),
            Event::RequestIntercepted(Ok(request)) => {
                let hook = match self.phase {
                    Phase::InterceptingRequest(hook) => Some(hook),
                    _ => None,
                };
                match self.client.request_hook_after(hook) {
                    Some(next) => {
                        self.phase = Phase::InterceptingRequest(next);
                        Action::InterceptRequest {
                            hook: next,
                            request: Outgoing::Intercepted(request),
                        }
                    },
                    None => {
                        self.phase = Phase::Describing;
                        Action::Describe(request)
                    },
                }
            },
            Event::Described(request, parts) => self.fold(request, parts, now, check),
            Event::Sent(outcome) => {
                record_outcome(breaker, &outcome, now);
                self.judge(outcome, now, check)
            },
            Event::BackoffOver => self.begin_attempt(check),
            Event::ResponseIntercepted(Err(e)) => self.give_up(e),
            Event::ResponseIntercepted(Ok(response)) => {
                let hook = match self.phase {
                    Phase::InterceptingResponse(hook) => Some(hook),
                    _ => None,
                };
                self.pass_on(hook, response)
            },
        }
    }

    /// Go on after an event: what to do next.
    pub fn advance(&mut self, breaker: &mut Option<CircuitBreaker>, event: Event<R>) -> (action:
        Action<R>)
        requires
            old(self).client_view().sound(old(self)@),
            old(self)@.awaits(event),
        ensures
            final(self).client_view() == old(self).client_view(),
            old(self).client_view().sound(final(self)@),
            exists|now: Instant, check: Instant|
                #[trigger] old(self).client_view().steps(
                    old(self)@,
                    breaker_view(*old(breaker)),
                    event,
                    now,
                    check,
                    final(self)@,
                    breaker_view(*final(breaker)),
                    action,
                ),
    {
        let now = Instant::now();
        self.advance_at(breaker, event, now, Instant::now())
    }
}

} // verus!
