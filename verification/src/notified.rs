//! The record of the interceptors notified of an error.
use vstd::prelude::*;

use crate::context::Context;
use crate::error::NimbusError;
use crate::interceptor::{Interceptor, SharedInterceptor};

verus! {

/// The interceptors of a chain notified of an error: their positions in the
/// chain, in the order in which they were notified. Only notifying an
/// interceptor adds its position.
pub struct Notified {
    chain: Ghost<Seq<SharedInterceptor>>,
    log: Ghost<Seq<int>>,
}

impl Notified {
    /// The chain whose interceptors are notified.
    pub closed spec fn spec_chain(&self) -> Seq<SharedInterceptor> {
        self.chain@
    }

    /// The positions notified, in order.
    pub closed spec fn view(&self) -> Seq<int> {
        self.log@
    }

    /// A record of no interceptor of `chain` notified.
    pub fn new(chain: &Vec<SharedInterceptor>) -> (r: Self)
        ensures
            r.spec_chain() == chain@,
            r@ == Seq::<int>::empty(),
    {
        Notified { chain: Ghost(chain@), log: Ghost(Seq::empty()) }
    }

    /// Notify the interceptor at position `i` of the chain of `error`, and
    /// record that it was.
    pub fn notify(&mut self, chain: &Vec<SharedInterceptor>, i: usize, ctx: &Context, error: &NimbusError)
        requires
            chain@ == old(self).spec_chain(),
            i < chain@.len(),
        ensures
            final(self).spec_chain() == old(self).spec_chain(),
            final(self)@ == old(self)@.push(i as int),
    {
        chain[i].on_error(ctx, error);
        proof {
            self.log@ = self.log@.push(i as int);
        }
    }
}

} // verus!
