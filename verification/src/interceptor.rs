//! Interceptor trait and chain.
use vstd::prelude::*;
use vstd::string::*;
use std::sync::Arc;

use crate::context::Context;
use crate::error::NimbusError;
use crate::notified::Notified;

verus! {

/// Error type for interceptor operations.
#[derive(Debug)]
pub enum InterceptorError {
    /// Request was rejected by the interceptor.
    Rejected(String),
    /// Interceptor internal error.
    Internal(String),
}

/// The message of an interceptor error.
pub open spec fn interceptor_error_text(e: InterceptorError) -> Seq<char> {
    match e {
        InterceptorError::Rejected(s) => "request rejected: "@ + s@,
        InterceptorError::Internal(s) => "interceptor error: "@ + s@,
    }
}

impl InterceptorError {
    /// The error's message.
    pub fn to_string(&self) -> (r: String)
        ensures
            r@ == interceptor_error_text(*self),
    {
        let mut s = String::new();
        match self {
            InterceptorError::Rejected(m) => {
                s.append("request rejected: ");
                s.append(m.as_str());
            },
            InterceptorError::Internal(m) => {
                s.append("interceptor error: ");
                s.append(m.as_str());
            },
        }
        s
    }
}

impl From<InterceptorError> for NimbusError {
    /// A service error with code 1 and the interceptor error's message.
    fn from(err: InterceptorError) -> (r: Self)
        ensures
            r matches NimbusError::Service { code, message } && code == 1 && message@
                == interceptor_error_text(err),
    {
        interceptor_error_to_nimbus(err)
    }
}

impl vstd::std_specs::convert::FromSpecImpl<InterceptorError> for NimbusError {
    /// The message is a `String` built at run time, which a spec function
    /// cannot construct; `interceptor_error_to_nimbus` states the result.
    open spec fn obeys_from_spec() -> bool {
        false
    }

    open spec fn from_spec(err: InterceptorError) -> Self {
        arbitrary()
    }
}

/// Turn an interceptor error into the service error it is reported as: code 1
/// and the interceptor error's message.
pub fn interceptor_error_to_nimbus(err: InterceptorError) -> (r: NimbusError)
    ensures
        r matches NimbusError::Service { code, message } && code == 1 && message@
            == interceptor_error_text(err),
{
    NimbusError::Service { code: 1, message: err.to_string() }
}

/// Trait for intercepting RPC requests and responses.
///
/// Interceptors can modify requests before they are sent, and responses
/// after they are received. They can also reject requests entirely. Each
/// implementation says, through `request_spec` and `response_spec`, what its
/// methods do; one that says nothing promises nothing.
pub trait Interceptor: Send + Sync + 'static {
    /// What the interceptor promises of one request it handles: that it took
    /// the context from `before` to `after` and answered `r` for a request
    /// whose bytes were `request`. Unless an implementation says more,
    /// nothing is promised.
    open spec fn request_spec(
        &self,
        before: Context,
        after: Context,
        request: Seq<u8>,
        r: Result<(), InterceptorError>,
    ) -> bool {
        true
    }

    /// What the interceptor promises of one response it handles: that, with
    /// context `ctx`, it took the response bytes from `before` to `after` and
    /// answered `r`. Unless an implementation says more, nothing is promised.
    open spec fn response_spec(
        &self,
        ctx: Context,
        before: Seq<u8>,
        after: Seq<u8>,
        r: Result<(), InterceptorError>,
    ) -> bool {
        true
    }

    /// Intercept an outgoing request, before it is serialized and sent. The
    /// interceptor may change the context or reject the request.
    fn intercept_request(&self, ctx: &mut Context, request: &[u8]) -> (r: Result<(), InterceptorError>)
        ensures
            self.request_spec(*old(ctx), *final(ctx), request@, r),
    ;

    /// Intercept an incoming response, after it is received and before it is
    /// deserialized and returned to the caller.
    fn intercept_response(&self, ctx: &Context, response: &mut Vec<u8>) -> (r: Result<(), InterceptorError>)
        ensures
            self.response_spec(*ctx, old(response)@, final(response)@, r),
    ;

    /// Called when a request fails, for logging or metrics.
    fn on_error(&self, ctx: &Context, error: &NimbusError) {
    }
}

/// A response step that lets the response through as it was.
pub open spec fn passes_response(before: Seq<u8>, after: Seq<u8>, r: Result<(), InterceptorError>) -> bool {
    r is Ok && after == before
}

/// A shared interceptor.
pub type SharedInterceptor = Arc<dyn Interceptor>;

/// Whether `states` and `results` record a run of `chain` over a request
/// whose bytes are `request`: the j-th interceptor took the context from
/// `states[j]` to `states[j + 1]` and answered `results[j]`, every step but
/// the last let the request through, and no more steps ran than there are
/// interceptors.
pub open spec fn request_run(
    chain: Seq<SharedInterceptor>,
    request: Seq<u8>,
    states: Seq<Context>,
    results: Seq<Result<(), InterceptorError>>,
) -> bool {
    &&& states.len() == results.len() + 1
    &&& results.len() <= chain.len()
    &&& forall|j: int|
        0 <= j < results.len() ==> #[trigger] chain[j].request_spec(states[j], states[j + 1], request, results[j])
    &&& forall|j: int| 0 <= j < results.len() - 1 ==> (#[trigger] results[j]) is Ok
}

/// Whether `bodies` and `results` record a run of `chain` over a response
/// with context `ctx`: the interceptors run last to first, the j-th step
/// (by the interceptor at `chain.len() - 1 - j`) took the response bytes from
/// `bodies[j]` to `bodies[j + 1]` and answered `results[j]`, every step but
/// the last let the response through, and no more steps ran than there are
/// interceptors.
pub open spec fn response_run(
    chain: Seq<SharedInterceptor>,
    ctx: Context,
    bodies: Seq<Seq<u8>>,
    results: Seq<Result<(), InterceptorError>>,
) -> bool {
    &&& bodies.len() == results.len() + 1
    &&& results.len() <= chain.len()
    &&& forall|j: int|
        0 <= j < results.len() ==> #[trigger] chain[chain.len() - 1 - j].response_spec(
            ctx,
            bodies[j],
            bodies[j + 1],
            results[j],
        )
    &&& forall|j: int| 0 <= j < results.len() - 1 ==> (#[trigger] results[j]) is Ok
}

/// What running `chain` over a response does: its interceptors run last to
/// first, each on the bytes the one before it left, from `before` to
/// `after`; `r` is `Ok` when every one let the response through, and
/// otherwise the error of the first that did not, after which none ran.
pub open spec fn response_outcome(
    chain: Seq<SharedInterceptor>,
    ctx: Context,
    before: Seq<u8>,
    after: Seq<u8>,
    r: Result<(), InterceptorError>,
) -> bool {
    exists|bodies: Seq<Seq<u8>>, results: Seq<Result<(), InterceptorError>>|
        {
            &&& #[trigger] response_run(chain, ctx, bodies, results)
            &&& bodies[0] == before
            &&& bodies.last() == after
            &&& match r {
                Ok(()) => results.len() == chain.len() && (results.len() > 0 ==> results.last() is Ok),
                Err(e) => results.len() > 0 && results.last() == Err::<(), InterceptorError>(e),
            }
        }
}

/// What running `chain` over a request does: its interceptors run first to
/// last, each on the context the one before it left, from `before` to
/// `after`; `r` is `Ok` when every one let the request through, and
/// otherwise the error of the first that did not, after which none ran.
pub open spec fn request_outcome(
    chain: Seq<SharedInterceptor>,
    request: Seq<u8>,
    before: Context,
    after: Context,
    r: Result<(), InterceptorError>,
) -> bool {
    exists|states: Seq<Context>, results: Seq<Result<(), InterceptorError>>|
        {
            &&& #[trigger] request_run(chain, request, states, results)
            &&& states[0] == before
            &&& states.last() == after
            &&& match r {
                Ok(()) => results.len() == chain.len() && (results.len() > 0 ==> results.last() is Ok),
                Err(e) => results.len() > 0 && results.last() == Err::<(), InterceptorError>(e),
            }
        }
}

/// `Arc::clone` of `item`, pushed at the end of `v`: the clone shares the
/// same interceptor. The two calls stand together because Verus does not
/// take a shared trait object moved as a value, in verified code or as the
/// result of a wrapper ("unsizing operation").
#[verifier::external_body]
fn push_shared_clone(v: &mut Vec<SharedInterceptor>, item: &SharedInterceptor)
    ensures
        final(v)@.len() == old(v)@.len() + 1,
        final(v)@.take(old(v)@.len() as int) == old(v)@,
        final(v)@[old(v)@.len() as int] == *item,
{
    v.push(Arc::clone(item))
}

/// A chain of interceptors.
///
/// Interceptors are executed in order for requests (first to last) and in
/// reverse order for responses (last to first); the first error stops the
/// chain.
pub struct InterceptorChain {
    interceptors: Vec<SharedInterceptor>,
}

impl InterceptorChain {
    /// The interceptors, in the order requests go through them.
    pub closed spec fn view(&self) -> Seq<SharedInterceptor> {
        self.interceptors@
    }

    /// Create a new empty interceptor chain.
    pub fn new() -> (r: Self)
        ensures
            r@ == Seq::<SharedInterceptor>::empty(),
    {
        InterceptorChain { interceptors: Vec::new() }
    }

    /// Add an interceptor at the end of the chain. (`Arc::new` and the
    /// coercion to a trait object, then `Vec::push`: Verus does not take
    /// trait-object coercions in verified code.)
    #[verifier::external_body]
    pub fn with<I: Interceptor>(self, interceptor: I) -> (r: Self)
        ensures
            r@.len() == self@.len() + 1,
            r@.take(self@.len() as int) == self@,
    {
        let mut interceptors = self.interceptors;
        interceptors.push(Arc::new(interceptor));
        InterceptorChain { interceptors }
    }

    /// Add a shared interceptor at the end of the chain. (`Vec::push` of a
    /// shared trait object, which Verus does not take in verified code, nor
    /// through a verified generic push: "unsizing operation".)
    #[verifier::external_body]
    pub fn with_shared(self, interceptor: SharedInterceptor) -> (r: Self)
        ensures
            r@.len() == self@.len() + 1,
            r@.take(self@.len() as int) == self@,
            r@[self@.len() as int] == interceptor,
    {
        let mut interceptors = self.interceptors;
        interceptors.push(interceptor);
        InterceptorChain { interceptors }
    }

    /// Process a request through all interceptors, first to last, stopping at
    /// the first error. An empty chain accepts every request and leaves the
    /// context as it is.
    pub fn intercept_request(&self, ctx: &mut Context, request: &[u8]) -> (r: Result<(), InterceptorError>)
        ensures
            request_outcome(self@, request@, *old(ctx), *final(ctx), r),
            self@.len() == 0 ==> r is Ok && *final(ctx) == *old(ctx),
    {
        let ghost mut states: Seq<Context> = seq![*ctx];
        let ghost mut results: Seq<Result<(), InterceptorError>> = Seq::empty();
        let mut i: usize = 0;
        while i < self.interceptors.len()
            invariant
                i <= self.interceptors@.len(),
                results.len() == i,
                request_run(self@, request@, states, results),
                forall|j: int| 0 <= j < i ==> (#[trigger] results[j]) is Ok,
                states[0] == *old(ctx),
                states.last() == *ctx,
            decreases self.interceptors@.len() - i,
        {
            let interceptor = &self.interceptors[i];
            let ghost before = *ctx;
            let res = interceptor.intercept_request(ctx, request);
            proof {
                let ghost rg = res;
                states = states.push(*ctx);
                results = results.push(rg);
                assert(self@[i as int].request_spec(before, *ctx, request@, rg));
                assert(request_run(self@, request@, states, results));
            }
            match res {
                Ok(()) => {},
                Err(e) => {
                    assert(request_run(self@, request@, states, results));
                    return Err(e);
                },
            }
            i = i + 1;
        }
        Ok(())
    }

    /// Process a response through all interceptors, last to first, stopping at
    /// the first error. An empty chain accepts every response and leaves it
    /// as it is.
    pub fn intercept_response(&self, ctx: &Context, response: &mut Vec<u8>) -> (r: Result<(), InterceptorError>)
        ensures
            response_outcome(self@, *ctx, old(response)@, final(response)@, r),
            self@.len() == 0 ==> r is Ok && final(response)@ == old(response)@,
    {
        let ghost mut bodies: Seq<Seq<u8>> = seq![response@];
        let ghost mut results: Seq<Result<(), InterceptorError>> = Seq::empty();
        let mut i: usize = self.interceptors.len();
        while i > 0
            invariant
                i <= self.interceptors@.len(),
                results.len() == self@.len() - i,
                response_run(self@, *ctx, bodies, results),
                forall|j: int| 0 <= j < results.len() ==> (#[trigger] results[j]) is Ok,
                bodies[0] == old(response)@,
                bodies.last() == response@,
            decreases i,
        {
            i = i - 1;
            let interceptor = &self.interceptors[i];
            let ghost before = response@;
            let res = interceptor.intercept_response(ctx, response);
            proof {
                let ghost rg = res;
                bodies = bodies.push(response@);
                results = results.push(rg);
                assert(self@[i as int].response_spec(*ctx, before, response@, rg));
                assert(response_run(self@, *ctx, bodies, results));
            }
            match res {
                Ok(()) => {},
                Err(e) => {
                    assert(response_run(self@, *ctx, bodies, results));
                    return Err(e);
                },
            }
        }
        Ok(())
    }

    /// Notify all interceptors of an error, first to last, each once; the
    /// record returned lists their positions in the order they were
    /// notified.
    pub fn on_error(&self, ctx: &Context, error: &NimbusError) -> (r: Notified)
        ensures
            r.spec_chain() == self@,
            r@ == Seq::new(self@.len(), |k: int| k),
    {
        let mut notified = Notified::new(&self.interceptors);
        let mut i: usize = 0;
        while i < self.interceptors.len()
            invariant
                i <= self.interceptors@.len(),
                notified.spec_chain() == self@,
                notified@ == Seq::new(i as nat, |k: int| k),
            decreases self.interceptors@.len() - i,
        {
            notified.notify(&self.interceptors, i, ctx, error);
            proof {
                assert(notified@ =~= Seq::new((i + 1) as nat, |k: int| k));
            }
            i = i + 1;
        }
        notified
    }

    /// Check if the chain is empty.
    pub fn is_empty(&self) -> (r: bool)
        ensures
            r == (self@.len() == 0),
    {
        self.interceptors.len() == 0
    }

    /// Get the number of interceptors in the chain.
    pub fn len(&self) -> (r: usize)
        ensures
            r == self@.len(),
    {
        self.interceptors.len()
    }
}

/// Whether the chain `after` is the chain `before` with one interceptor
/// added at the end, as `with` and `with_shared` leave it.
pub open spec fn one_added(before: Seq<SharedInterceptor>, after: Seq<SharedInterceptor>) -> bool {
    after.len() == before.len() + 1 && after.take(before.len() as int) == before
}

/// Adding interceptors one at a time keeps those already there, first and
/// in order, and lengthens the chain by one each time: after `k` additions
/// to a chain, the chain is `k` longer and starts with the original one.
pub proof fn lemma_additions_accumulate(chains: Seq<Seq<SharedInterceptor>>)
    requires
        chains.len() > 0,
        forall|i: int| 1 <= i < chains.len() ==> one_added(chains[i - 1], #[trigger] chains[i]),
    ensures
        chains.last().len() == chains[0].len() + chains.len() - 1,
        chains.last().take(chains[0].len() as int) == chains[0],
    decreases chains.len(),
{
    if chains.len() > 1 {
        let prefix = chains.drop_last();
        assert forall|i: int| 1 <= i < prefix.len() implies one_added(prefix[i - 1], #[trigger] prefix[i]) by {
            assert(prefix[i] == chains[i]);
            assert(prefix[i - 1] == chains[i - 1]);
        }
        lemma_additions_accumulate(prefix);
        let n = chains.len() - 1;
        assert(one_added(chains[n - 1], chains[n]));
        assert(prefix.last() == chains[n - 1]);
        assert(chains.last().take(chains[0].len() as int) =~= chains[n - 1].take(chains[0].len() as int));
    }
}

impl Default for InterceptorChain {
    fn default() -> (r: Self)
        ensures
            r@ == Seq::<SharedInterceptor>::empty(),
    {
        Self::new()
    }
}

impl Clone for InterceptorChain {
    /// A chain sharing the same interceptors.
    fn clone(&self) -> (r: Self)
        ensures
            r@ == self@,
    {
        let mut interceptors: Vec<SharedInterceptor> = Vec::new();
        let mut i: usize = 0;
        while i < self.interceptors.len()
            invariant
                i <= self.interceptors@.len(),
                interceptors@.len() == i,
                forall|j: int| 0 <= j < i ==> #[trigger] interceptors@[j] == self.interceptors@[j],
            decreases self.interceptors@.len() - i,
        {
            let ghost before = interceptors@;
            push_shared_clone(&mut interceptors, &self.interceptors[i]);
            proof {
                assert forall|j: int| 0 <= j < i implies #[trigger] interceptors@[j] == self.interceptors@[j] by {
                    assert(interceptors@.take(i as int)[j] == before[j]);
                }
            }
            i = i + 1;
        }
        proof {
            assert(interceptors@ =~= self.interceptors@);
        }
        InterceptorChain { interceptors }
    }
}

} // verus!
