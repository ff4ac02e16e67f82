//! Interceptor that attaches tracing information to requests.
use vstd::prelude::*;

use crate::context::{u64_le_bytes, wall_clock_nanos, Context, TraceId};
use crate::interceptor::{passes_response, Interceptor, InterceptorError};
use crate::text::{decimal_string, decimal_text, hex_text};

verus! {

/// Interceptor for distributed tracing.
///
/// It ensures each request has a trace ID and propagates the trace ID, the
/// request ID and the service name in the request's metadata, under
/// `x-trace-id`, `x-request-id` and `x-service`.
#[derive(Debug)]
pub struct TracingInterceptor {
    service_name: String,
}

/// The metadata the interceptor leaves on a request whose metadata was `m`,
/// with trace ID bytes `trace`, request ID `id` and service name `service`.
pub open spec fn traced_metadata(
    m: Map<Seq<char>, Seq<char>>,
    trace: Seq<u8>,
    id: u64,
    service: Seq<char>,
) -> Map<Seq<char>, Seq<char>> {
    m.insert("x-trace-id"@, hex_text(trace)).insert("x-request-id"@, decimal_text(id as nat)).insert(
        "x-service"@,
        service,
    )
}

impl TracingInterceptor {
    /// The service name it reports.
    pub closed spec fn spec_service_name(&self) -> Seq<char> {
        self.service_name@
    }

    /// Create a new tracing interceptor.
    pub fn new(service_name: &str) -> (r: Self)
        ensures
            r.spec_service_name() == service_name@,
    {
        TracingInterceptor { service_name: service_name.to_owned() }
    }
}

/// What the interceptor does to one request: it lets it through, keeps an
/// existing trace ID or gives one whose last eight bytes are the request ID,
/// records the trace ID, request ID and service name in the metadata, and
/// keeps the other fields.
pub open spec fn traced_request(
    service: Seq<char>,
    before: Context,
    after: Context,
    r: Result<(), InterceptorError>,
) -> bool {
    &&& r is Ok
    &&& before.trace_id is Some ==> after.trace_id == before.trace_id
    &&& after.trace_id matches Some(t) && (before.trace_id is None ==> t.0@.subrange(8, 16) == u64_le_bytes(
        before.request_id,
    )) && after.metadata@ == traced_metadata(before.metadata@, t.0@, before.request_id, service)
    &&& after.request_id == before.request_id
    &&& after.deadline == before.deadline
    &&& after.parent_span_id == before.parent_span_id
}

impl Interceptor for TracingInterceptor {

    /// Lets every response through as it was.
    open spec fn response_spec(
        &self,
        ctx: Context,
        before: Seq<u8>,
        after: Seq<u8>,
        r: Result<(), InterceptorError>,
    ) -> bool {
        passes_response(before, after, r)
    }

    /// Lets every response through as it was.
    fn intercept_response(&self, ctx: &Context, response: &mut Vec<u8>) -> (r: Result<(), InterceptorError>)
        ensures
            passes_response(old(response)@, final(response)@, r),
    {
        Ok(())
    }
    /// See `traced_request`.
    open spec fn request_spec(
        &self,
        before: Context,
        after: Context,
        request: Seq<u8>,
        r: Result<(), InterceptorError>,
    ) -> bool {
        traced_request(self.spec_service_name(), before, after, r)
    }

    /// Gives a request without a trace ID a new one (the wall clock in its
    /// first eight bytes, the request's own ID in its last eight), then
    /// records the trace ID, request ID and service name in the metadata.
    fn intercept_request(&self, ctx: &mut Context, _request: &[u8]) -> (r: Result<(), InterceptorError>)
        ensures
            traced_request(self.spec_service_name(), *old(ctx), *final(ctx), r),
    {
        if ctx.trace_id.is_none() {
            let t = TraceId::from_parts(wall_clock_nanos(), ctx.request_id);
            proof {
                assert(t.0@.subrange(8, 16) =~= u64_le_bytes(ctx.request_id));
            }
            ctx.trace_id = Some(t);
        }
        let trace_text = match &ctx.trace_id {
            Some(t) => t.to_string(),
            None => String::new(),
        };
        ctx.metadata.insert("x-trace-id".to_owned(), trace_text);
        let id_text = decimal_string(ctx.request_id);
        ctx.metadata.insert("x-request-id".to_owned(), id_text);
        ctx.metadata.insert("x-service".to_owned(), self.service_name.clone());
        Ok(())
    }
}

} // verus!
