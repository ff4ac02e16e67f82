use nimbus::context::{Context, RequestIds, TraceId};
use nimbus::error::NimbusError;
use nimbus::interceptor::{interceptor_error_to_nimbus, Interceptor, InterceptorChain, InterceptorError};
use nimbus::timeout::TimeoutInterceptor;
use nimbus::tracing_interceptor::TracingInterceptor;
use std::sync::Arc;
use std::time::{Duration, Instant};

struct TestInterceptor {
    prefix: String,
}

impl Interceptor for TestInterceptor {
    fn intercept_request(&self, ctx: &mut Context, _request: &[u8]) -> Result<(), InterceptorError> {
        ctx.metadata.insert("test".to_string(), self.prefix.clone());
        Ok(())
    }

    fn intercept_response(&self, _ctx: &Context, _response: &mut Vec<u8>) -> Result<(), InterceptorError> {
        Ok(())
    }
}

#[test]
fn test_interceptor_chain() {
    let chain = InterceptorChain::new()
        .with(TestInterceptor { prefix: "first".to_string() })
        .with(TestInterceptor { prefix: "second".to_string() });

    let mut ids = RequestIds::new();
    let mut ctx = Context::new(&mut ids);
    chain.intercept_request(&mut ctx, &[]).unwrap();

    // Second interceptor overwrites first
    assert_eq!(ctx.get_metadata("test"), Some("second"));
}

struct RejectingInterceptor;

impl Interceptor for RejectingInterceptor {
    fn intercept_request(&self, _ctx: &mut Context, _request: &[u8]) -> Result<(), InterceptorError> {
        Err(InterceptorError::Rejected("not allowed".into()))
    }

    fn intercept_response(&self, _ctx: &Context, _response: &mut Vec<u8>) -> Result<(), InterceptorError> {
        Ok(())
    }
}

#[test]
fn test_interceptor_rejection() {
    let chain = InterceptorChain::new().with(RejectingInterceptor);

    let mut ids = RequestIds::new();
    let mut ctx = Context::new(&mut ids);
    let result = chain.intercept_request(&mut ctx, &[]);

    assert!(result.is_err());
}

#[test]
fn rejection_stops_the_chain() {
    let chain = InterceptorChain::new()
        .with(RejectingInterceptor)
        .with(TestInterceptor { prefix: "never".to_string() });
    let mut ids = RequestIds::new();
    let mut ctx = Context::new(&mut ids);
    assert!(chain.intercept_request(&mut ctx, &[]).is_err());
    assert_eq!(ctx.get_metadata("test"), None);
}

struct Suffix(u8);

impl Interceptor for Suffix {
    fn intercept_request(&self, _ctx: &mut Context, _request: &[u8]) -> Result<(), InterceptorError> {
        Ok(())
    }

    fn intercept_response(&self, _ctx: &Context, response: &mut Vec<u8>) -> Result<(), InterceptorError> {
        response.push(self.0);
        Ok(())
    }
}

#[test]
fn responses_run_last_to_first() {
    let chain = InterceptorChain::new().with(Suffix(1)).with_shared(Arc::new(Suffix(2)));
    assert_eq!(chain.len(), 2);
    assert!(!chain.is_empty());
    let mut ids = RequestIds::new();
    let ctx = Context::new(&mut ids);
    let mut response = vec![0u8];
    chain.intercept_response(&ctx, &mut response).unwrap();
    assert_eq!(response, vec![0, 2, 1]);
}

#[test]
fn empty_chain_passes_everything() {
    let chain = InterceptorChain::default();
    assert!(chain.is_empty());
    assert_eq!(chain.len(), 0);
    let mut ids = RequestIds::new();
    let mut ctx = Context::new(&mut ids);
    assert!(chain.intercept_request(&mut ctx, &[1, 2]).is_ok());
    let mut response = vec![9u8];
    assert!(chain.intercept_response(&ctx, &mut response).is_ok());
    assert_eq!(response, vec![9]);
    chain.on_error(&ctx, &NimbusError::Cancelled);
    let copy = chain.clone();
    assert_eq!(copy.len(), 0);
}

#[test]
fn interceptor_error_texts_and_conversion() {
    assert_eq!(InterceptorError::Rejected("no".to_string()).to_string(), "request rejected: no");
    assert_eq!(InterceptorError::Internal("bug".to_string()).to_string(), "interceptor error: bug");
    let e = interceptor_error_to_nimbus(InterceptorError::Rejected("no".to_string()));
    assert_eq!(e.to_string(), "service error [1]: request rejected: no");
    let f: NimbusError = InterceptorError::Internal("x".to_string()).into();
    assert_eq!(f.to_string(), "service error [1]: interceptor error: x");
}

#[test]
fn test_sets_default_deadline() {
    let interceptor = TimeoutInterceptor::new(Duration::from_secs(30));
    let mut ids = RequestIds::new();
    let mut ctx = Context::new(&mut ids);

    interceptor.intercept_request(&mut ctx, &[]).unwrap();

    assert!(ctx.deadline.is_some());
    assert!(ctx.remaining().unwrap() <= Duration::from_secs(30));
}

#[test]
fn test_preserves_existing_deadline() {
    let interceptor = TimeoutInterceptor::new(Duration::from_secs(30));
    let mut ids = RequestIds::new();
    let mut ctx = Context::new(&mut ids);

    let original_deadline = Instant::now() + Duration::from_secs(10);
    ctx.deadline = Some(original_deadline);

    interceptor.intercept_request(&mut ctx, &[]).unwrap();

    assert_eq!(ctx.deadline, Some(original_deadline));
}

#[test]
fn test_enforces_max_deadline() {
    let interceptor = TimeoutInterceptor::new(Duration::from_secs(30)).with_max(Duration::from_secs(5));

    let mut ids = RequestIds::new();
    let mut ctx = Context::new(&mut ids);
    ctx.deadline = Some(Instant::now() + Duration::from_secs(100));

    interceptor.intercept_request(&mut ctx, &[]).unwrap();

    // Should be reduced to max
    assert!(ctx.remaining().unwrap() <= Duration::from_secs(5));
}

#[test]
fn test_rejects_expired() {
    let interceptor = TimeoutInterceptor::new(Duration::from_secs(30));
    let mut ids = RequestIds::new();
    let mut ctx = Context::new(&mut ids);

    // Set deadline in the past
    ctx.deadline = Some(Instant::now() - Duration::from_secs(1));

    let result = interceptor.intercept_request(&mut ctx, &[]);
    assert!(result.is_err());
}

#[test]
fn apply_deadline_at_a_fixed_instant() {
    let now = Instant::now();
    let interceptor = TimeoutInterceptor::new(Duration::from_secs(30)).with_max(Duration::from_secs(5));
    let mut ids = RequestIds::new();

    let mut fresh = Context::new(&mut ids);
    interceptor.apply_deadline(&mut fresh, &now);
    assert_eq!(fresh.deadline, Some(now + Duration::from_secs(30)));

    let mut far = Context::new(&mut ids);
    far.deadline = Some(now + Duration::from_secs(100));
    interceptor.apply_deadline(&mut far, &now);
    assert_eq!(far.deadline, Some(now + Duration::from_secs(5)));

    let mut near = Context::new(&mut ids);
    near.deadline = Some(now + Duration::from_secs(2));
    interceptor.apply_deadline(&mut near, &now);
    assert_eq!(near.deadline, Some(now + Duration::from_secs(2)));
}

#[test]
fn timeout_step_at_fixed_instants() {
    let now = Instant::now();
    let interceptor = TimeoutInterceptor::new(Duration::from_secs(30));
    let mut ids = RequestIds::new();

    let mut fresh = Context::new(&mut ids);
    let later = now + Duration::from_secs(10);
    assert!(interceptor.timeout_step(&mut fresh, &now, &later).is_ok());
    assert_eq!(fresh.deadline, Some(now + Duration::from_secs(30)));

    let mut due = Context::new(&mut ids);
    let at_deadline = now + Duration::from_secs(30);
    match interceptor.timeout_step(&mut due, &now, &at_deadline) {
        Err(InterceptorError::Rejected(m)) => assert_eq!(m, "request already expired"),
        other => panic!("unexpected result: {:?}", other),
    }
    assert_eq!(due.deadline, Some(now + Duration::from_secs(30)));

    let mut past = Context::new(&mut ids);
    let earlier = now - Duration::from_secs(1);
    past.deadline = Some(earlier);
    assert!(interceptor.timeout_step(&mut past, &now, &now).is_err());
    assert_eq!(past.deadline, Some(earlier));
}

#[test]
fn test_adds_trace_id() {
    let interceptor = TracingInterceptor::new("test-service");
    let mut ids = RequestIds::new();
    let mut ctx = Context::new(&mut ids);

    interceptor.intercept_request(&mut ctx, &[]).unwrap();

    assert!(ctx.trace_id.is_some());
    assert!(ctx.metadata.contains_key("x-trace-id"));
}

#[test]
fn test_preserves_existing_trace_id() {
    let interceptor = TracingInterceptor::new("test-service");
    let mut ids = RequestIds::new();
    let mut ctx = Context::new(&mut ids);

    let original_trace_id = TraceId::new(&mut ids);
    ctx.trace_id = Some(original_trace_id.clone());

    interceptor.intercept_request(&mut ctx, &[]).unwrap();

    assert_eq!(ctx.trace_id.as_ref().unwrap().as_bytes(), original_trace_id.as_bytes());
}

#[test]
fn tracing_metadata_values() {
    let interceptor = TracingInterceptor::new("billing");
    let mut ids = RequestIds::new();
    let mut ctx = Context::new(&mut ids).with_trace_id(TraceId::from_bytes([0xab; 16]));
    interceptor.intercept_request(&mut ctx, &[]).unwrap();
    assert_eq!(ctx.get_metadata("x-trace-id"), Some("abababababababababababababababab"));
    assert_eq!(ctx.get_metadata("x-request-id"), Some("1"));
    assert_eq!(ctx.get_metadata("x-service"), Some("billing"));
}

#[test]
fn new_trace_id_ends_with_request_id() {
    let interceptor = TracingInterceptor::new("svc");
    let mut ids = RequestIds::new();
    let _ = ids.next_request_id();
    let mut ctx = Context::new(&mut ids);
    assert_eq!(ctx.request_id, 2);
    interceptor.intercept_request(&mut ctx, &[]).unwrap();
    let bytes = ctx.trace_id.as_ref().unwrap().as_bytes();
    assert_eq!(&bytes[8..16], &2u64.to_le_bytes());
}

#[test]
fn retry_limit_is_recorded_in_metadata() {
    let mut ids = RequestIds::new();
    let mut ctx = Context::new(&mut ids);
    nimbus::retry::record_retry_limit(&mut ctx, 3);
    assert_eq!(ctx.get_metadata("nimbus.retry.max"), Some("3"));
    nimbus::retry::record_retry_limit(&mut ctx, 12);
    assert_eq!(ctx.get_metadata("nimbus.retry.max"), Some("12"));
    assert_eq!(ctx.metadata.len(), 1);
}
