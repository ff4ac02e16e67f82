//! What the retry interceptor records on a request.
//!
//! The retry policy itself (backoff with a floating-point multiplier and
//! jitter) is computed outside this library; the interceptor only passes the
//! retry limit on to the transport, in the request's metadata.
use vstd::prelude::*;

use crate::context::Context;
use crate::text::{decimal_string, decimal_text};

verus! {

/// Record the retry limit on a request: the metadata key
/// `nimbus.retry.max` is set to `max_retries` in decimal; nothing else of
/// the context changes.
pub fn record_retry_limit(ctx: &mut Context, max_retries: u32)
    ensures
        final(ctx).metadata@ == old(ctx).metadata@.insert("nimbus.retry.max"@, decimal_text(
            max_retries as nat,
        )),
        final(ctx).request_id == old(ctx).request_id,
        final(ctx).deadline == old(ctx).deadline,
        final(ctx).trace_id == old(ctx).trace_id,
        final(ctx).parent_span_id == old(ctx).parent_span_id,
{
    let text = decimal_string(max_retries as u64);
    ctx.metadata.insert("nimbus.retry.max".to_owned(), text);
}

} // verus!
