//! Request/response multiplexing for concurrent RPC calls.
//!
//! Each request is registered under a fresh ID with a one-shot channel; the
//! response (or an error) for that ID is sent down the channel to the
//! caller waiting on its receiver.
use vstd::prelude::*;
use dashmap::DashMap;
use rkyv::util::AlignedVec;
use tokio::sync::oneshot;

use crate::context::following_id;
use crate::deliveries::Deliveries;
use crate::error::{NimbusError, TransportError};

verus! {

#[verifier::external_type_specification]
#[verifier::external_body]
#[verifier::reject_recursive_types(K)]
#[verifier::reject_recursive_types(V)]
#[verifier::reject_recursive_types(S)]
pub struct ExDashMap<K, V, S>(dashmap::DashMap<K, V, S>);

#[verifier::external_type_specification]
#[verifier::external_body]
#[verifier::reject_recursive_types(T)]
pub struct ExOneshotSender<T>(tokio::sync::oneshot::Sender<T>);

#[verifier::external_type_specification]
#[verifier::external_body]
#[verifier::reject_recursive_types(T)]
pub struct ExOneshotReceiver<T>(tokio::sync::oneshot::Receiver<T>);

// The error a receiver's future yields when its sender is dropped; declared
// because the receiver's `Future` impl names it.
#[verifier::external_type_specification]
#[verifier::external_body]
pub struct ExRecvError(tokio::sync::oneshot::error::RecvError);

/// What a caller waiting on a request eventually receives.
pub type ResponseResult = Result<AlignedVec, NimbusError>;

/// A pending request waiting for a response.
pub struct PendingRequest {
    sender: oneshot::Sender<ResponseResult>,
}

/// The IDs of the requests held in a pending-request map.
pub uninterp spec fn pending_ids(m: DashMap<u64, PendingRequest>) -> Set<u64>;

/// `DashMap::new`: an empty map.
#[verifier::external_body]
fn pending_map_new() -> (r: DashMap<u64, PendingRequest>)
    ensures
        pending_ids(r) == Set::<u64>::empty(),
{
    DashMap::new()
}

/// `DashMap::insert`: `id` is then held (with the new value; an earlier
/// value for `id` is returned and dropped). A map holds finitely many keys.
#[verifier::external_body]
fn pending_insert(m: &mut DashMap<u64, PendingRequest>, id: u64, p: PendingRequest)
    ensures
        pending_ids(*final(m)) == pending_ids(*old(m)).insert(id),
        pending_ids(*final(m)).finite(),
{
    m.insert(id, p);
}

/// `DashMap::remove`: takes out the entry for `id`, if held. A map holds
/// finitely many keys.
#[verifier::external_body]
fn pending_remove(m: &mut DashMap<u64, PendingRequest>, id: u64) -> (r: Option<(u64, PendingRequest)>)
    ensures
        r is Some <==> pending_ids(*old(m)).contains(id),
        r matches Some(e) ==> e.0 == id,
        pending_ids(*final(m)) == pending_ids(*old(m)).remove(id),
        pending_ids(*old(m)).finite(),
        pending_ids(*final(m)).finite(),
{
    m.remove(&id)
}

/// The keys that `DashMap::iter` visits, collected in the (unspecified)
/// order of the visit. Each key is visited once.
#[verifier::external_body]
fn pending_keys(m: &DashMap<u64, PendingRequest>) -> (r: Vec<u64>)
    ensures
        r@.to_set() == pending_ids(*m),
        r@.no_duplicates(),
{
    m.iter().map(|e| *e.key()).collect()
}

/// `DashMap::len`: the number of entries.
#[verifier::external_body]
fn pending_len(m: &DashMap<u64, PendingRequest>) -> (r: usize)
    ensures
        r == pending_ids(*m).len(),
{
    m.len()
}

/// `oneshot::channel`: a connected sender and receiver.
#[verifier::external_body]
fn response_channel() -> (r: (oneshot::Sender<ResponseResult>, oneshot::Receiver<ResponseResult>)) {
    oneshot::channel()
}

/// `oneshot::Sender::send`: hands `value` to the channel of `sender`, the
/// one `Multiplexer::register` made for request `id`, which carries it to the
/// receiver returned with that ID; `log` records that `value` is what the
/// caller waiting on `id` is sent. When the receiver has been dropped (the
/// caller stopped waiting) the value is dropped.
#[verifier::external_body]
fn deliver(log: &mut Deliveries, id: u64, sender: oneshot::Sender<ResponseResult>, value: ResponseResult)
    ensures
        final(log)@ == old(log)@.insert(id, value),
{
    let _ = sender.send(value);
}

/// Multiplexer for correlating requests with responses, so that several
/// calls can be in flight over one connection.
pub struct Multiplexer {
    pending: DashMap<u64, PendingRequest>,
    next_id: u64,
    sent: Deliveries,
}

/// The error every waiting caller receives when all requests are cancelled.
pub open spec fn connection_closed() -> ResponseResult {
    Err(NimbusError::Transport(TransportError::ConnectionClosed))
}

impl Multiplexer {
    /// The IDs of the requests waiting for a response.
    pub closed spec fn view(&self) -> Set<u64> {
        pending_ids(self.pending)
    }

    /// The ID the next registered request gets.
    pub closed spec fn spec_next_id(&self) -> u64 {
        self.next_id
    }

    /// For each ID whose caller has been answered since it was registered,
    /// the value sent down its channel (a response or an error).
    pub closed spec fn spec_sent(&self) -> Map<u64, ResponseResult> {
        self.sent@
    }

    /// Take `id`'s pending entry out and send `value` to its caller.
    fn answer(&mut self, id: u64, pending: PendingRequest, value: ResponseResult)
        ensures
            final(self)@ == old(self)@,
            final(self).spec_next_id() == old(self).spec_next_id(),
            final(self).spec_sent() == old(self).spec_sent().insert(id, value),
    {
        deliver(&mut self.sent, id, pending.sender, value);
    }

    /// Whether every waiting request has an ID below the next one, so that
    /// the next ID is not in use (this holds until the counter wraps).
    pub open spec fn ids_fresh(&self) -> bool {
        self.spec_next_id() > 0 && forall|id: u64| #[trigger] self@.contains(id) ==> id < self.spec_next_id()
    }

    /// Create a new multiplexer; the first ID is 1.
    pub fn new() -> (r: Self)
        ensures
            r@ == Set::<u64>::empty(),
            r.spec_next_id() == 1,
            r.ids_fresh(),
            r@.finite(),
            r.spec_sent() == Map::<u64, ResponseResult>::empty(),
    {
        Multiplexer { pending: pending_map_new(), next_id: 1, sent: Deliveries::new() }
    }

    /// Register a new pending request: returns its ID and the receiver on
    /// which its response will arrive.
    pub fn register(&mut self) -> (r: (u64, oneshot::Receiver<ResponseResult>))
        ensures
            r.0 == old(self).spec_next_id(),
            final(self)@ == old(self)@.insert(r.0),
            final(self).spec_next_id() == following_id(old(self).spec_next_id()),
            old(self).ids_fresh() && old(self).spec_next_id() < u64::MAX ==> !old(self)@.contains(r.0)
                && final(self).ids_fresh(),
            final(self).spec_sent() == old(self).spec_sent().remove(r.0),
            final(self)@.finite(),
    {
        let id = self.next_id;
        self.next_id = self.next_id.wrapping_add(1);
        let (tx, rx) = response_channel();
        pending_insert(&mut self.pending, id, PendingRequest { sender: tx });
        self.sent.forget(id);
        (id, rx)
    }

    /// Dispatch a response to a pending request.
    ///
    /// Returns `true` if the request was pending (it is then no longer
    /// pending, and its caller is sent `Ok(response)`), `false` if no pending
    /// request had that ID (e.g. it timed out).
    pub fn dispatch(&mut self, request_id: u64, response: AlignedVec) -> (r: bool)
        ensures
            r == old(self)@.contains(request_id),
            final(self)@ == old(self)@.remove(request_id),
            old(self)@.finite() && final(self)@.finite(),
            final(self).spec_next_id() == old(self).spec_next_id(),
            final(self).spec_sent() == if r {
                old(self).spec_sent().insert(request_id, Ok(response))
            } else {
                old(self).spec_sent()
            },
    {
        match pending_remove(&mut self.pending, request_id) {
            Some((_, pending)) => {
                self.answer(request_id, pending, Ok(response));
                true
            },
            None => false,
        }
    }

    /// Dispatch an error to a pending request (its caller is sent
    /// `Err(error)`); returns whether it was pending.
    pub fn dispatch_error(&mut self, request_id: u64, error: NimbusError) -> (r: bool)
        ensures
            r == old(self)@.contains(request_id),
            final(self)@ == old(self)@.remove(request_id),
            old(self)@.finite() && final(self)@.finite(),
            final(self).spec_next_id() == old(self).spec_next_id(),
            final(self).spec_sent() == if r {
                old(self).spec_sent().insert(request_id, Err(error))
            } else {
                old(self).spec_sent()
            },
    {
        match pending_remove(&mut self.pending, request_id) {
            Some((_, pending)) => {
                self.answer(request_id, pending, Err(error));
                true
            },
            None => false,
        }
    }

    /// Cancel a pending request: its caller receives `Cancelled`.
    pub fn cancel(&mut self, request_id: u64)
        ensures
            final(self)@ == old(self)@.remove(request_id),
            old(self)@.finite() && final(self)@.finite(),
            final(self).spec_next_id() == old(self).spec_next_id(),
            final(self).spec_sent() == if old(self)@.contains(request_id) {
                old(self).spec_sent().insert(request_id, Err(NimbusError::Cancelled))
            } else {
                old(self).spec_sent()
            },
    {
        if let Some((_, pending)) = pending_remove(&mut self.pending, request_id) {
            self.answer(request_id, pending, Err(NimbusError::Cancelled));
        }
    }

    /// Cancel all pending requests (e.g. on connection close): each caller
    /// receives a closed-connection transport error.
    pub fn cancel_all(&mut self)
        ensures
            final(self)@ == Set::<u64>::empty(),
            final(self).spec_next_id() == old(self).spec_next_id(),
            final(self).spec_sent() == old(self).spec_sent().union_prefer_right(
                Map::new(|id: u64| old(self)@.contains(id), |id: u64| connection_closed()),
            ),
    {
        let keys = pending_keys(&self.pending);
        let mut i: usize = 0;
        while i < keys.len()
            invariant
                i <= keys@.len(),
                keys@.no_duplicates(),
                self@ == old(self)@.difference(keys@.take(i as int).to_set()),
                keys@.to_set() == old(self)@,
                self.spec_next_id() == old(self).spec_next_id(),
                self.spec_sent() == old(self).spec_sent().union_prefer_right(
                    Map::new(|id: u64| keys@.take(i as int).to_set().contains(id), |id: u64| connection_closed()),
                ),
            decreases keys@.len() - i,
        {
            let id = keys[i];
            proof {
                assert(keys@.take(i + 1).to_set() =~= keys@.take(i as int).to_set().insert(id)) by {
                    assert(keys@.take(i + 1) =~= keys@.take(i as int).push(id));
                    keys@.take(i as int).lemma_push_to_set_commute(id);
                }
                assert(!keys@.take(i as int).to_set().contains(id)) by {
                    if keys@.take(i as int).to_set().contains(id) {
                        let j = choose|j: int| 0 <= j < i && keys@.take(i as int)[j] == id;
                        assert(keys@[j] == keys@[i as int]);
                    }
                }
                assert(self@.contains(id));
            }
            if let Some((_, pending)) = pending_remove(&mut self.pending, id) {
                let error = NimbusError::Transport(TransportError::ConnectionClosed);
                self.answer(id, pending, Err(error));
            }
            proof {
                assert(self@ =~= old(self)@.difference(keys@.take(i + 1).to_set()));
                assert(self.spec_sent() =~= old(self).spec_sent().union_prefer_right(
                    Map::new(|k: u64| keys@.take(i + 1).to_set().contains(k), |k: u64| connection_closed()),
                ));
            }
            i = i + 1;
        }
        proof {
            assert(keys@.take(keys@.len() as int) =~= keys@);
            assert(self@ =~= Set::<u64>::empty());
            assert(self.spec_sent() =~= old(self).spec_sent().union_prefer_right(
                Map::new(|id: u64| old(self)@.contains(id), |id: u64| connection_closed()),
            ));
        }
    }

    /// Get the number of pending requests.
    pub fn pending_count(&self) -> (r: usize)
        ensures
            r == self@.len(),
    {
        pending_len(&self.pending)
    }

    /// Check if there are any pending requests.
    pub fn has_pending(&self) -> (r: bool)
        ensures
            r == (self@.len() > 0),
    {
        pending_len(&self.pending) > 0
    }
}

impl Default for Multiplexer {
    fn default() -> (r: Self)
        ensures
            r@ == Set::<u64>::empty(),
            r.spec_next_id() == 1,
            r.spec_sent() == Map::<u64, ResponseResult>::empty(),
    {
        Self::new()
    }
}

/// Registering a fresh request and then dispatching (or cancelling) it
/// leaves the same requests pending as before, and a second dispatch of the
/// same ID finds nothing.
pub proof fn lemma_register_then_dispatch(pending: Set<u64>, id: u64)
    requires
        !pending.contains(id),
    ensures
        pending.insert(id).contains(id),
        pending.insert(id).remove(id) == pending,
        !pending.insert(id).remove(id).contains(id),
{
    assert(pending.insert(id).remove(id) =~= pending);
}

/// Requests registered one after another from a fresh state get distinct
/// IDs: the second ID is the first plus one, and the first is still pending
/// under its own ID when the second is registered.
pub proof fn lemma_consecutive_ids_distinct(next: u64)
    requires
        0 < next < u64::MAX,
    ensures
        following_id(next) == next + 1,
        following_id(next) != next,
{
}

} // verus!
