//! Points in time and spans of time, from `std::time`.
//!
//! `Instant` and `Duration` are opaque to Verus. The library reasons about a
//! `Duration` through the number of nanoseconds it spans, and about an
//! `Instant` through its position, in nanoseconds, on the process's
//! monotonic clock; every std call below is stated over those two numbers.
use vstd::prelude::*;
use std::time::{Duration, Instant, SystemTime};

verus! {

#[verifier::external_type_specification]
#[verifier::external_body]
pub struct ExInstant(std::time::Instant);

#[verifier::external_type_specification]
#[verifier::external_body]
pub struct ExSystemTime(std::time::SystemTime);

/// The span of a `Duration` in nanoseconds (`Duration::as_nanos`).
pub uninterp spec fn duration_nanos(d: Duration) -> nat;

/// The position of an `Instant` on the monotonic clock, in nanoseconds from
/// an origin that std does not disclose; only differences are meaningful.
pub uninterp spec fn instant_ticks(t: Instant) -> int;

/// `Duration` is `Copy`; its `clone` returns the same value.
pub assume_specification[ <Duration as Clone>::clone ](d: &Duration) -> (r: Duration)
    ensures
        r == *d,
;

/// `Instant` is `Copy`; its `clone` returns the same value.
pub assume_specification[ <Instant as Clone>::clone ](t: &Instant) -> (r: Instant)
    ensures
        r == *t,
;

/// `Duration::from_secs`: a duration of `secs` whole seconds.
#[verifier::external_body]
pub(crate) fn duration_from_secs(secs: u64) -> (r: Duration)
    ensures
        duration_nanos(r) == secs * 1_000_000_000,
{
    Duration::from_secs(secs)
}

/// `Instant::now`: the current reading of the monotonic clock. Nothing is
/// stated of the value: it depends on when the call is made.
#[verifier::external_body]
pub(crate) fn instant_now() -> (r: Instant) {
    Instant::now()
}

/// `Instant::checked_add`: `t` moved forward by `d`, or `None` when the
/// result cannot be represented as an `Instant`, that is when it lies beyond
/// the bounds of the underlying representation. A time that is not later
/// than some `Instant` `u` lies between `t` and `u`, within those bounds, so
/// the addition then succeeds.
#[verifier::external_body]
pub(crate) fn instant_checked_add(t: &Instant, d: Duration) -> (r: Option<Instant>)
    ensures
        r matches Some(x) ==> instant_ticks(x) == instant_ticks(*t) + duration_nanos(d),
        forall|u: Instant| instant_ticks(*t) + duration_nanos(d) <= #[trigger] instant_ticks(u) ==> r is Some,
{
    t.checked_add(d)
}

/// `Instant::checked_duration_since`: the time from `earlier` to `t`, or
/// `None` when `earlier` is later than `t`.
#[verifier::external_body]
pub(crate) fn instant_checked_duration_since(t: &Instant, earlier: &Instant) -> (r: Option<Duration>)
    ensures
        r is Some <==> instant_ticks(*earlier) <= instant_ticks(*t),
        r matches Some(d) ==> duration_nanos(d) == instant_ticks(*t) - instant_ticks(*earlier),
{
    t.checked_duration_since(*earlier)
}

/// `Instant::saturating_duration_since`: the time from `earlier` to `t`, or
/// zero when `earlier` is later than `t`.
#[verifier::external_body]
pub(crate) fn instant_saturating_duration_since(t: &Instant, earlier: &Instant) -> (r: Duration)
    ensures
        instant_ticks(*earlier) <= instant_ticks(*t) ==> duration_nanos(r) == instant_ticks(*t)
            - instant_ticks(*earlier),
        instant_ticks(*t) < instant_ticks(*earlier) ==> duration_nanos(r) == 0,
{
    t.saturating_duration_since(*earlier)
}

/// `<Instant as PartialOrd>::le`: whether `a` is not later than `b`.
#[verifier::external_body]
pub(crate) fn instant_not_after(a: &Instant, b: &Instant) -> (r: bool)
    ensures
        r == (instant_ticks(*a) <= instant_ticks(*b)),
{
    *a <= *b
}

/// `<Duration as PartialOrd>::le`: whether `a` is not longer than `b`.
#[verifier::external_body]
pub(crate) fn duration_not_longer(a: &Duration, b: &Duration) -> (r: bool)
    ensures
        r == (duration_nanos(*a) <= duration_nanos(*b)),
{
    *a <= *b
}

/// `SystemTime::now`: the current reading of the wall clock. Nothing is
/// stated of the value: it depends on when the call is made.
#[verifier::external_body]
pub(crate) fn system_time_now() -> (r: SystemTime) {
    SystemTime::now()
}

/// `SystemTime::duration_since(UNIX_EPOCH)`, with the error (a clock set
/// before the epoch) mapped to `None`. Nothing is stated of the value: the
/// outcome is a reading of the wall clock.
#[verifier::external_body]
pub(crate) fn duration_since_unix_epoch(t: &SystemTime) -> (r: Option<Duration>) {
    match t.duration_since(SystemTime::UNIX_EPOCH) {
        Ok(d) => Some(d),
        Err(_) => None,
    }
}

/// `Duration::as_nanos`: the span in nanoseconds.
#[verifier::external_body]
pub(crate) fn duration_as_nanos(d: &Duration) -> (r: u128)
    ensures
        r == duration_nanos(*d),
{
    d.as_nanos()
}

} // verus!
