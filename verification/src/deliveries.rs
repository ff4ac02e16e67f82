//! The record of what has been sent to the callers waiting on requests.
use vstd::prelude::*;

use crate::mux::ResponseResult;

verus! {

/// For each request ID, the value last sent down the channel of the caller
/// waiting on it. Only sending a value (the multiplexer's `deliver`) adds to
/// the record; an ID handed out again is forgotten.
pub struct Deliveries {
    log: Ghost<Map<u64, ResponseResult>>,
}

impl Deliveries {
    /// The values sent, per request ID.
    pub closed spec fn view(&self) -> Map<u64, ResponseResult> {
        self.log@
    }

    /// A record of nothing sent.
    pub fn new() -> (r: Self)
        ensures
            r@ == Map::<u64, ResponseResult>::empty(),
    {
        Deliveries { log: Ghost(Map::empty()) }
    }

    /// Forget what was sent for `id`, which is being handed out again.
    pub fn forget(&mut self, id: u64)
        ensures
            final(self)@ == old(self)@.remove(id),
    {
        proof {
            self.log@ = self.log@.remove(id);
        }
    }
}

} // verus!
