//! Interceptor that enforces request deadlines.
use vstd::prelude::*;
use std::time::{Duration, Instant};

use crate::clock::{duration_nanos, instant_checked_add, instant_not_after, instant_now, instant_ticks};
use crate::context::{deadline_outcome, spec_is_expired_at, Context};
use crate::interceptor::{passes_response, Interceptor, InterceptorError};

verus! {

/// Interceptor that enforces request timeouts.
///
/// It ensures that every request has a deadline: a request without one gets
/// the default timeout from now, and a request whose deadline lies beyond
/// the maximum (when one is set) is brought forward to it. Requests that
/// have already expired are rejected.
#[derive(Debug)]
pub struct TimeoutInterceptor {
    /// Default timeout for requests without a deadline.
    default_timeout: Duration,
    /// Maximum allowed timeout (enforced even if request has longer deadline).
    max_timeout: Option<Duration>,
}

/// Whether `result` is the deadline that the interceptor gives, at `now`, a
/// request whose deadline was `deadline`: without one, the default timeout
/// from `now`, which is given whenever that instant is not later than some
/// `Instant` (and none is given otherwise); with one
/// and no maximum, the same deadline; with a maximum, the same deadline when
/// it lies within the maximum from `now`, and otherwise the maximum from
/// `now` (which lies before the old deadline, so it can be represented).
pub open spec fn adjusted_deadline(
    deadline: Option<Instant>,
    default_timeout: Duration,
    max_timeout: Option<Duration>,
    now: Instant,
    result: Option<Instant>,
) -> bool {
    match deadline {
        None => deadline_outcome(now, default_timeout, result),
        Some(d) => match max_timeout {
            None => result == Some(d),
            Some(m) => result matches Some(nd) && (if instant_ticks(d) <= instant_ticks(now)
                + duration_nanos(m) {
                nd == d
            } else {
                instant_ticks(nd) == instant_ticks(now) + duration_nanos(m)
            }),
        },
    }
}

impl TimeoutInterceptor {
    /// The default timeout.
    pub closed spec fn spec_default_timeout(&self) -> Duration {
        self.default_timeout
    }

    /// The maximum timeout, if any.
    pub closed spec fn spec_max_timeout(&self) -> Option<Duration> {
        self.max_timeout
    }

    /// Create a new timeout interceptor with the given default timeout and no
    /// maximum.
    pub fn new(default_timeout: Duration) -> (r: Self)
        ensures
            r.spec_default_timeout() == default_timeout,
            r.spec_max_timeout() is None,
    {
        TimeoutInterceptor { default_timeout, max_timeout: None }
    }

    /// Set a maximum timeout that will be enforced even if the request
    /// has a longer deadline.
    pub fn with_max(self, max_timeout: Duration) -> (r: Self)
        ensures
            r.spec_default_timeout() == self.spec_default_timeout(),
            r.spec_max_timeout() == Some(max_timeout),
    {
        TimeoutInterceptor { max_timeout: Some(max_timeout), ..self }
    }

    /// Give the context the deadline the interceptor asks for at `now`: the
    /// default timeout from `now` when it has none, or the maximum timeout
    /// from `now` when its deadline lies beyond that. A deadline that cannot
    /// be represented as an `Instant` is not set (the context keeps what it
    /// had).
    pub fn apply_deadline(&self, ctx: &mut Context, now: &Instant)
        ensures
            adjusted_deadline(
                old(ctx).deadline,
                self.spec_default_timeout(),
                self.spec_max_timeout(),
                *now,
                final(ctx).deadline,
            ),
            final(ctx).request_id == old(ctx).request_id,
            final(ctx).metadata == old(ctx).metadata,
            final(ctx).trace_id == old(ctx).trace_id,
            final(ctx).parent_span_id == old(ctx).parent_span_id,
    {
        match ctx.deadline {
            Some(deadline) => {
                if let Some(max) = self.max_timeout {
                    if let Some(max_deadline) = instant_checked_add(now, max) {
                        if !instant_not_after(&deadline, &max_deadline) {
                            ctx.deadline = Some(max_deadline);
                        }
                    }
                }
            },
            None => {
                ctx.deadline = instant_checked_add(now, self.default_timeout);
            },
        }
    }
}

impl TimeoutInterceptor {
    /// One pass of the interceptor over a request, with the clock read as
    /// `now` when the deadline is set and as `check` when it is tested: the
    /// deadline is adjusted as `apply_deadline` does, and the request is
    /// rejected with "request already expired" exactly when the resulting
    /// deadline has been reached at `check`.
    pub fn timeout_step(&self, ctx: &mut Context, now: &Instant, check: &Instant) -> (r: Result<
        (),
        InterceptorError,
    >)
        ensures
            adjusted_deadline(
                old(ctx).deadline,
                self.spec_default_timeout(),
                self.spec_max_timeout(),
                *now,
                final(ctx).deadline,
            ),
            final(ctx).request_id == old(ctx).request_id,
            final(ctx).metadata == old(ctx).metadata,
            final(ctx).trace_id == old(ctx).trace_id,
            final(ctx).parent_span_id == old(ctx).parent_span_id,
            r is Err <==> spec_is_expired_at(final(ctx).deadline, *check),
            r matches Err(e) ==> e matches InterceptorError::Rejected(m) && m@ == "request already expired"@,
    {
        self.apply_deadline(ctx, now);
        if ctx.is_expired_at(check) {
            return Err(InterceptorError::Rejected("request already expired".to_owned()));
        }
        Ok(())
    }
}

/// What the interceptor does to one request: `before` becomes `after`, with
/// the deadline adjusted at some reading `now` of the clock and the request
/// rejected with "request already expired" exactly when the resulting
/// deadline has been reached at a later reading `check`; the other fields
/// are kept.
pub open spec fn timeout_request_outcome(
    default_timeout: Duration,
    max_timeout: Option<Duration>,
    before: Context,
    after: Context,
    r: Result<(), InterceptorError>,
) -> bool {
    &&& exists|now: Instant, check: Instant|
        #![trigger adjusted_deadline(before.deadline, default_timeout, max_timeout, now, after.deadline), spec_is_expired_at(after.deadline, check)]
        {
            &&& adjusted_deadline(before.deadline, default_timeout, max_timeout, now, after.deadline)
            &&& (r is Err <==> spec_is_expired_at(after.deadline, check))
        }
    &&& r matches Err(e) ==> e matches InterceptorError::Rejected(m) && m@ == "request already expired"@
    &&& after.request_id == before.request_id
    &&& after.metadata == before.metadata
    &&& after.trace_id == before.trace_id
    &&& after.parent_span_id == before.parent_span_id
}

impl Interceptor for TimeoutInterceptor {

    /// Lets every response through as it was.
    open spec fn response_spec(
        &self,
        ctx: Context,
        before: Seq<u8>,
        after: Seq<u8>,
        r: Result<(), InterceptorError>,
    ) -> bool {
        passes_response(before, after, r)
    }

    /// Lets every response through as it was.
    fn intercept_response(&self, ctx: &Context, response: &mut Vec<u8>) -> (r: Result<(), InterceptorError>)
        ensures
            passes_response(old(response)@, final(response)@, r),
    {
        Ok(())
    }
    /// See `timeout_request_outcome`.
    open spec fn request_spec(
        &self,
        before: Context,
        after: Context,
        request: Seq<u8>,
        r: Result<(), InterceptorError>,
    ) -> bool {
        timeout_request_outcome(self.spec_default_timeout(), self.spec_max_timeout(), before, after, r)
    }

    /// Reads the clock, sets the deadline, reads the clock again and rejects
    /// the request if the deadline has been reached: `timeout_step` at those
    /// two readings.
    fn intercept_request(&self, ctx: &mut Context, _request: &[u8]) -> (r: Result<(), InterceptorError>)
        ensures
            timeout_request_outcome(
                self.spec_default_timeout(),
                self.spec_max_timeout(),
                *old(ctx),
                *final(ctx),
                r,
            ),
    {
        let now = instant_now();
        let check = instant_now();
        self.timeout_step(ctx, &now, &check)
    }
}

/// A request that already has a deadline keeps it when no maximum is set,
/// and never ends up with a later deadline than it had: the interceptor only
/// ever brings deadlines forward.
pub proof fn lemma_deadline_never_extended(
    deadline: Instant,
    default_timeout: Duration,
    max_timeout: Option<Duration>,
    now: Instant,
    result: Option<Instant>,
)
    requires
        adjusted_deadline(Some(deadline), default_timeout, max_timeout, now, result),
    ensures
        result matches Some(nd) && instant_ticks(nd) <= instant_ticks(deadline),
        max_timeout is None ==> result == Some(deadline),
{
}

/// With a maximum set, the resulting deadline is no later than the maximum
/// timeout from `now`, unless it is the request's own, earlier-or-unchanged
/// deadline because the maximum could not be represented.
pub proof fn lemma_max_enforced(
    deadline: Option<Instant>,
    default_timeout: Duration,
    max: Duration,
    now: Instant,
    result: Option<Instant>,
)
    requires
        deadline is Some,
        adjusted_deadline(deadline, default_timeout, Some(max), now, result),
    ensures
        result matches Some(nd) && (instant_ticks(nd) <= instant_ticks(now) + duration_nanos(max)
            || nd == deadline->Some_0),
{
}

} // verus!
