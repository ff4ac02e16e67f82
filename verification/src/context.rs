//! Request context: identity, deadline, tracing and metadata of a call.
use vstd::prelude::*;
use std::time::{Duration, Instant};

use crate::clock::{
    duration_as_nanos, duration_nanos, duration_since_unix_epoch, instant_checked_add,
    instant_checked_duration_since, instant_not_after, instant_now, instant_ticks, system_time_now,
};
use crate::metadata::Metadata;
use crate::text::{hex_string, hex_text};

verus! {

/// Source of request IDs: hands out 1, 2, 3, ... (wrapping after
/// `u64::MAX`), so that every request is identified uniquely.
pub struct RequestIds {
    next: u64,
    issued: Ghost<Set<u64>>,
}

/// The counter value after `n`, as an atomic `fetch_add(1)` leaves it.
pub open spec fn following_id(n: u64) -> u64 {
    if n == u64::MAX {
        0
    } else {
        (n + 1) as u64
    }
}

impl RequestIds {
    /// The ID that the next request will get.
    pub closed spec fn spec_next(&self) -> u64 {
        self.next
    }

    /// The IDs this source has handed out.
    pub closed spec fn spec_issued(&self) -> Set<u64> {
        self.issued@
    }

    /// Whether the next ID is fresh: it is not zero, and every ID handed out
    /// so far is smaller (this holds until the counter wraps).
    pub open spec fn ids_fresh(&self) -> bool {
        &&& self.spec_next() > 0
        &&& forall|id: u64| #[trigger] self.spec_issued().contains(id) ==> id < self.spec_next()
    }

    /// A source whose first ID is 1, and which has handed out none.
    pub fn new() -> (r: Self)
        ensures
            r.spec_next() == 1,
            r.spec_issued() == Set::<u64>::empty(),
            r.ids_fresh(),
    {
        RequestIds { next: 1, issued: Ghost(Set::empty()) }
    }

    /// Hand out a request ID: until the counter wraps, one that was not
    /// handed out before.
    pub fn next_request_id(&mut self) -> (id: u64)
        ensures
            id == old(self).spec_next(),
            final(self).spec_next() == following_id(old(self).spec_next()),
            final(self).spec_issued() == old(self).spec_issued().insert(id),
            old(self).ids_fresh() && old(self).spec_next() < u64::MAX ==> !old(self).spec_issued().contains(id)
                && final(self).ids_fresh(),
    {
        let id = self.next;
        self.next = self.next.wrapping_add(1);
        proof {
            self.issued@ = self.issued@.insert(id);
        }
        id
    }
}

/// Until the counter wraps, every ID handed out after another is larger:
/// `k` further calls move the counter forward by exactly `k`.
pub proof fn lemma_ids_increase(n: u64, k: nat)
    requires
        n + k <= u64::MAX,
    ensures
        ids_after(n, k) == n + k,
    decreases k,
{
    if k > 0 {
        lemma_ids_increase(n, (k - 1) as nat);
    }
}

/// The counter value after `k` IDs have been handed out from `n`.
pub open spec fn ids_after(n: u64, k: nat) -> u64
    decreases k,
{
    if k == 0 {
        n
    } else {
        following_id(ids_after(n, (k - 1) as nat))
    }
}

/// The eight little-endian bytes of `x`.
pub open spec fn u64_le_bytes(x: u64) -> Seq<u8> {
    Seq::new(8, |i: int| ((x as int / pow256(i)) % 256) as u8)
}

/// `256` to the power `i`.
pub open spec fn pow256(i: int) -> int
    decreases i,
{
    if i <= 0 {
        1
    } else {
        256 * pow256(i - 1)
    }
}

/// Distributed tracing identifier.
#[derive(Debug, PartialEq, Eq, Hash)]
pub struct TraceId(pub [u8; 16]);

impl Clone for TraceId {
    fn clone(&self) -> (r: Self)
        ensures
            r == *self,
    {
        TraceId(self.0)
    }
}

/// Writes the little-endian bytes of `x` into `bytes[at..at + 8]`.
fn put_u64_le(bytes: &mut [u8; 16], at: usize, x: u64)
    requires
        at == 0 || at == 8,
    ensures
        final(bytes)@.subrange(at as int, at + 8) == u64_le_bytes(x),
        at == 0 ==> final(bytes)@.subrange(8, 16) == old(bytes)@.subrange(8, 16),
        at == 8 ==> final(bytes)@.subrange(0, 8) == old(bytes)@.subrange(0, 8),
{
    let mut v = x;
    let mut i: usize = 0;
    while i < 8
        invariant
            i <= 8,
            at == 0 || at == 8,
            v as int == x as int / pow256(i as int),
            bytes@.len() == 16,
            forall|j: int| 0 <= j < i ==> #[trigger] bytes@[at + j] == u64_le_bytes(x)[j],
            forall|j: int| 0 <= j < 16 && !(at <= j < at + 8) ==> #[trigger] bytes@[j] == old(bytes)@[j],
            forall|j: int| at + i <= j < at + 8 ==> #[trigger] bytes@[j] == old(bytes)@[j],
        decreases 8 - i,
    {
        bytes[at + i] = (v % 256) as u8;
        proof {
            assert(pow256(i + 1) == 256 * pow256(i as int));
            assert(pow256(i as int) > 0) by {
                lemma_pow256_positive(i as int);
            }
            assert((x as int / pow256(i as int)) / 256 == x as int / pow256(i + 1)) by {
                vstd::arithmetic::div_mod::lemma_div_denominator(x as int, pow256(i as int), 256);
            }
        }
        v = v / 256;
        i = i + 1;
    }
    proof {
        assert forall|j: int| 0 <= j < 8 implies #[trigger] bytes@.subrange(at as int, at + 8)[j]
            == u64_le_bytes(x)[j] by {
            assert(bytes@[at + j] == u64_le_bytes(x)[j]);
        }
        assert(bytes@.subrange(at as int, at + 8) =~= u64_le_bytes(x));
        if at == 0 {
            assert(bytes@.subrange(8, 16) =~= old(bytes)@.subrange(8, 16));
        } else {
            assert(bytes@.subrange(0, 8) =~= old(bytes)@.subrange(0, 8));
        }
    }
}

proof fn lemma_pow256_positive(i: int)
    ensures
        pow256(i) > 0,
    decreases i,
{
    if i > 0 {
        lemma_pow256_positive(i - 1);
    }
}

/// The wall clock in nanoseconds since the Unix epoch, cut to 64 bits, or
/// zero when the clock is set before the epoch.
pub(crate) fn wall_clock_nanos() -> u64 {
    let now = system_time_now();
    match duration_since_unix_epoch(&now) {
        Some(d) => duration_as_nanos(&d) as u64,
        None => 0,
    }
}

impl TraceId {
    /// The trace ID whose first eight bytes are `nanos` and last eight bytes
    /// are `id`, both little-endian.
    pub open spec fn spec_from_parts(nanos: u64, id: u64) -> Seq<u8> {
        u64_le_bytes(nanos) + u64_le_bytes(id)
    }

    /// A trace ID made of a clock reading and a counter value.
    pub(crate) fn from_parts(nanos: u64, id: u64) -> (r: Self)
        ensures
            r.0@ == Self::spec_from_parts(nanos, id),
    {
        let mut bytes = [0u8; 16];
        put_u64_le(&mut bytes, 0, nanos);
        put_u64_le(&mut bytes, 8, id);
        proof {
            assert(bytes@ =~= bytes@.subrange(0, 8) + bytes@.subrange(8, 16));
        }
        TraceId(bytes)
    }

    /// Create a new trace ID: the wall clock in nanoseconds since the Unix
    /// epoch (zero when the clock is set before it, cut to 64 bits) in the
    /// first eight bytes, and a fresh request ID in the last eight.
    pub fn new(ids: &mut RequestIds) -> (r: Self)
        ensures
            r.0@.subrange(8, 16) == u64_le_bytes(old(ids).spec_next()),
            final(ids).spec_next() == following_id(old(ids).spec_next()),
            final(ids).spec_issued() == old(ids).spec_issued().insert(old(ids).spec_next()),
            old(ids).ids_fresh() && old(ids).spec_next() < u64::MAX ==> !old(ids).spec_issued().contains(
                old(ids).spec_next(),
            ) && final(ids).ids_fresh(),
    {
        let nanos = wall_clock_nanos();
        let id = ids.next_request_id();
        let r = Self::from_parts(nanos, id);
        proof {
            assert(r.0@.subrange(8, 16) =~= u64_le_bytes(id));
        }
        r
    }

    /// Create from raw bytes.
    pub fn from_bytes(bytes: [u8; 16]) -> (r: Self)
        ensures
            r.0 == bytes,
    {
        TraceId(bytes)
    }

    /// Get the raw bytes.
    pub fn as_bytes(&self) -> (r: &[u8; 16])
        ensures
            *r == self.0,
    {
        &self.0
    }

    /// The ID as 32 lower-case hexadecimal digits.
    pub fn to_string(&self) -> (r: String)
        ensures
            r@ == hex_text(self.0@),
    {
        hex_string(self.0.as_slice())
    }
}

/// The time left before `deadline` at `now`, in nanoseconds: none when there
/// is no deadline or it has been reached (at the deadline itself none is left).
pub open spec fn spec_remaining_at(deadline: Option<Instant>, now: Instant) -> Option<nat> {
    match deadline {
        Some(d) => if instant_ticks(now) < instant_ticks(d) {
            Some((instant_ticks(d) - instant_ticks(now)) as nat)
        } else {
            None
        },
        None => None,
    }
}

/// What a deadline computed `timeout` after the reading `now` may be: the
/// instant exactly `timeout` later when one is given, and one is given
/// whenever that instant is not later than some `Instant`.
pub open spec fn deadline_outcome(now: Instant, timeout: Duration, res: Option<Instant>) -> bool {
    &&& res matches Some(d) ==> instant_ticks(d) == instant_ticks(now) + duration_nanos(timeout)
    &&& (exists|u: Instant| instant_ticks(now) + duration_nanos(timeout) <= #[trigger] instant_ticks(u))
        ==> res is Some
}

/// Whether `res` is what a deadline `timeout` after some reading of the clock
/// comes to.
pub open spec fn deadline_from_some_reading(res: Option<Instant>, timeout: Duration) -> bool {
    exists|now: Instant| #[trigger] deadline_outcome(now, timeout, res)
}

/// Whether `r` gives the time left before `deadline` at `now`, as
/// `spec_remaining_at` counts it.
pub open spec fn remaining_matches(deadline: Option<Instant>, now: Instant, r: Option<Duration>) -> bool {
    match spec_remaining_at(deadline, now) {
        Some(n) => r matches Some(d) && duration_nanos(d) == n,
        None => r is None,
    }
}

/// Whether `deadline` has been reached at `now`.
pub open spec fn spec_is_expired_at(deadline: Option<Instant>, now: Instant) -> bool {
    match deadline {
        Some(d) => instant_ticks(d) <= instant_ticks(now),
        None => false,
    }
}

/// The deadline `timeout` after `now`, when it can be represented; it always
/// can when it is not later than some existing `Instant`.
pub fn deadline_after(now: &Instant, timeout: Duration) -> (r: Option<Instant>)
    ensures
        deadline_outcome(*now, timeout, r),
{
    instant_checked_add(now, timeout)
}

/// Request context carrying metadata, deadlines, and tracing information.
///
/// Every RPC call carries a `Context` that provides:
/// - Unique request identification
/// - Deadline/timeout propagation
/// - Distributed tracing correlation
/// - Custom metadata (similar to HTTP headers)
#[derive(Debug)]
pub struct Context {
    /// Unique identifier for this request.
    pub request_id: u64,
    /// Absolute deadline for this request; `None` enforces no deadline.
    pub deadline: Option<Instant>,
    /// Custom key-value metadata.
    pub metadata: Metadata,
    /// Distributed tracing identifier.
    pub trace_id: Option<TraceId>,
    /// Parent span ID for tracing.
    pub parent_span_id: Option<u64>,
}

impl Clone for Context {
    /// A copy with the same ID, deadline, metadata, trace and parent span.
    fn clone(&self) -> (r: Self)
        ensures
            r.request_id == self.request_id,
            r.deadline == self.deadline,
            r.metadata@ == self.metadata@,
            r.trace_id == self.trace_id,
            r.parent_span_id == self.parent_span_id,
    {
        let trace_id = match &self.trace_id {
            Some(t) => Some(t.clone()),
            None => None,
        };
        Context {
            request_id: self.request_id,
            deadline: self.deadline,
            metadata: self.metadata.clone(),
            trace_id,
            parent_span_id: self.parent_span_id,
        }
    }
}

impl Context {
    /// Create a new context with a fresh request ID, no deadline, no
    /// metadata and no tracing.
    pub fn new(ids: &mut RequestIds) -> (r: Self)
        ensures
            r.request_id == old(ids).spec_next(),
            final(ids).spec_next() == following_id(old(ids).spec_next()),
            final(ids).spec_issued() == old(ids).spec_issued().insert(old(ids).spec_next()),
            old(ids).ids_fresh() && old(ids).spec_next() < u64::MAX ==> !old(ids).spec_issued().contains(
                old(ids).spec_next(),
            ) && final(ids).ids_fresh(),
            r.deadline is None,
            r.metadata@ == Map::<Seq<char>, Seq<char>>::empty(),
            r.trace_id is None,
            r.parent_span_id is None,
    {
        let request_id = ids.next_request_id();
        Context {
            request_id,
            deadline: None,
            metadata: Metadata::new(),
            trace_id: None,
            parent_span_id: None,
        }
    }

    /// Create a context whose deadline is `timeout` from now (no deadline
    /// when that instant cannot be represented).
    pub fn with_timeout(ids: &mut RequestIds, timeout: Duration) -> (r: Self)
        ensures
            deadline_from_some_reading(r.deadline, timeout),
            r.request_id == old(ids).spec_next(),
            final(ids).spec_next() == following_id(old(ids).spec_next()),
            final(ids).spec_issued() == old(ids).spec_issued().insert(old(ids).spec_next()),
            old(ids).ids_fresh() && old(ids).spec_next() < u64::MAX ==> !old(ids).spec_issued().contains(
                old(ids).spec_next(),
            ) && final(ids).ids_fresh(),
            r.metadata@ == Map::<Seq<char>, Seq<char>>::empty(),
            r.trace_id is None,
            r.parent_span_id is None,
    {
        let now = instant_now();
        let request_id = ids.next_request_id();
        let deadline = deadline_after(&now, timeout);
        assert(deadline_outcome(now, timeout, deadline));
        Context { request_id, deadline, metadata: Metadata::new(), trace_id: None, parent_span_id: None }
    }

    /// Create a context with an absolute deadline.
    pub fn with_deadline(ids: &mut RequestIds, deadline: Instant) -> (r: Self)
        ensures
            r.request_id == old(ids).spec_next(),
            final(ids).spec_next() == following_id(old(ids).spec_next()),
            final(ids).spec_issued() == old(ids).spec_issued().insert(old(ids).spec_next()),
            old(ids).ids_fresh() && old(ids).spec_next() < u64::MAX ==> !old(ids).spec_issued().contains(
                old(ids).spec_next(),
            ) && final(ids).ids_fresh(),
            r.deadline == Some(deadline),
            r.metadata@ == Map::<Seq<char>, Seq<char>>::empty(),
            r.trace_id is None,
            r.parent_span_id is None,
    {
        let request_id = ids.next_request_id();
        Context {
            request_id,
            deadline: Some(deadline),
            metadata: Metadata::new(),
            trace_id: None,
            parent_span_id: None,
        }
    }

    /// Set the deadline for this context.
    pub fn deadline(self, deadline: Instant) -> (r: Self)
        ensures
            r == (Context { deadline: Some(deadline), ..self }),
    {
        Context { deadline: Some(deadline), ..self }
    }

    /// Set the deadline to `timeout` from now (no deadline when that instant
    /// cannot be represented).
    pub fn timeout(self, timeout: Duration) -> (r: Self)
        ensures
            deadline_from_some_reading(r.deadline, timeout),
            r.request_id == self.request_id,
            r.metadata == self.metadata,
            r.trace_id == self.trace_id,
            r.parent_span_id == self.parent_span_id,
    {
        let now = instant_now();
        let deadline = deadline_after(&now, timeout);
        assert(deadline_outcome(now, timeout, deadline));
        Context { deadline, ..self }
    }

    /// Add metadata to the context.
    pub fn with_metadata(self, key: &str, value: &str) -> (r: Self)
        ensures
            r.metadata@ == self.metadata@.insert(key@, value@),
            r.request_id == self.request_id,
            r.deadline == self.deadline,
            r.trace_id == self.trace_id,
            r.parent_span_id == self.parent_span_id,
    {
        let mut s = self;
        s.metadata.insert(key.to_owned(), value.to_owned());
        s
    }

    /// Set the trace ID.
    pub fn with_trace_id(self, trace_id: TraceId) -> (r: Self)
        ensures
            r == (Context { trace_id: Some(trace_id), ..self }),
    {
        Context { trace_id: Some(trace_id), ..self }
    }

    /// Enable tracing with a new trace ID.
    pub fn with_tracing(self, ids: &mut RequestIds) -> (r: Self)
        ensures
            r.trace_id matches Some(t) && t.0@.subrange(8, 16) == u64_le_bytes(old(ids).spec_next()),
            final(ids).spec_next() == following_id(old(ids).spec_next()),
            final(ids).spec_issued() == old(ids).spec_issued().insert(old(ids).spec_next()),
            old(ids).ids_fresh() && old(ids).spec_next() < u64::MAX ==> !old(ids).spec_issued().contains(
                old(ids).spec_next(),
            ) && final(ids).ids_fresh(),
            r.request_id == self.request_id,
            r.deadline == self.deadline,
            r.metadata == self.metadata,
            r.parent_span_id == self.parent_span_id,
    {
        let t = TraceId::new(ids);
        Context { trace_id: Some(t), ..self }
    }

    /// The time left before the deadline at `now`: `None` when there is no
    /// deadline or it has been reached.
    pub fn remaining_at(&self, now: &Instant) -> (r: Option<Duration>)
        ensures
            remaining_matches(self.deadline, *now, r),
    {
        match &self.deadline {
            Some(d) => if instant_not_after(d, now) {
                None
            } else {
                instant_checked_duration_since(d, now)
            },
            None => None,
        }
    }

    /// Whether the deadline has been reached at `now`.
    pub fn is_expired_at(&self, now: &Instant) -> (r: bool)
        ensures
            r == spec_is_expired_at(self.deadline, *now),
    {
        match &self.deadline {
            Some(d) => instant_not_after(d, now),
            None => false,
        }
    }

    /// Get remaining time until deadline: `None` if no deadline is set or
    /// the deadline has been reached.
    pub fn remaining(&self) -> (r: Option<Duration>)
        ensures
            self.deadline is None ==> r is None,
            exists|now: Instant| #[trigger] remaining_matches(self.deadline, now, r),
    {
        let now = instant_now();
        let r = self.remaining_at(&now);
        assert(remaining_matches(self.deadline, now, r));
        r
    }

    /// Check if the deadline has been reached, at a reading of the clock
    /// taken during the call.
    pub fn is_expired(&self) -> (r: bool)
        ensures
            self.deadline is None ==> !r,
            exists|now: Instant| r == #[trigger] spec_is_expired_at(self.deadline, now),
    {
        let now = instant_now();
        let r = self.is_expired_at(&now);
        assert(r == spec_is_expired_at(self.deadline, now));
        r
    }

    /// Get a metadata value.
    pub fn get_metadata(&self, key: &str) -> (r: Option<&str>)
        ensures
            r is Some <==> self.metadata@.dom().contains(key@),
            r matches Some(v) ==> v@ == self.metadata@[key@],
    {
        match self.metadata.get(key) {
            Some(v) => Some(v.as_str()),
            None => None,
        }
    }

    /// Create a child context for nested calls: a fresh request ID, the
    /// parent's deadline, trace ID and metadata, and the parent's request ID
    /// as the parent span.
    pub fn child(&self, ids: &mut RequestIds) -> (r: Self)
        ensures
            r.request_id == old(ids).spec_next(),
            final(ids).spec_next() == following_id(old(ids).spec_next()),
            final(ids).spec_issued() == old(ids).spec_issued().insert(old(ids).spec_next()),
            old(ids).ids_fresh() && old(ids).spec_next() < u64::MAX ==> !old(ids).spec_issued().contains(
                old(ids).spec_next(),
            ) && final(ids).ids_fresh(),
            r.deadline == self.deadline,
            r.metadata@ == self.metadata@,
            r.trace_id == self.trace_id,
            r.parent_span_id == Some(self.request_id),
    {
        let request_id = ids.next_request_id();
        let trace_id = match &self.trace_id {
            Some(t) => Some(t.clone()),
            None => None,
        };
        Context {
            request_id,
            deadline: self.deadline,
            metadata: self.metadata.clone(),
            trace_id,
            parent_span_id: Some(self.request_id),
        }
    }
}

/// Time remains before a deadline exactly when it has not been reached: a
/// context is expired at `now` iff it has a deadline and no time remains, and
/// whatever time remains is positive.
pub proof fn lemma_expired_iff_no_time_left(deadline: Option<Instant>, now: Instant)
    ensures
        spec_is_expired_at(deadline, now) <==> (deadline is Some && spec_remaining_at(deadline, now) is None),
        spec_remaining_at(deadline, now) matches Some(n) ==> n > 0,
{
}

/// A deadline set a positive `timeout` after `now` leaves exactly `timeout`
/// at `now`, and is reached `timeout` later, not before.
pub proof fn lemma_timeout_roundtrip(now: Instant, timeout: Duration, deadline: Instant, later: Instant)
    requires
        instant_ticks(deadline) == instant_ticks(now) + duration_nanos(timeout),
    ensures
        duration_nanos(timeout) > 0 ==> spec_remaining_at(Some(deadline), now) == Some(duration_nanos(timeout)),
        duration_nanos(timeout) == 0 ==> spec_remaining_at(Some(deadline), now) is None,
        spec_is_expired_at(Some(deadline), later) <==> instant_ticks(later) - instant_ticks(now)
            >= duration_nanos(timeout),
{
}

} // verus!
