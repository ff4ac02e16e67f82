use nimbus::context::{deadline_after, Context, RequestIds, TraceId};
use std::time::{Duration, Instant};

#[test]
fn test_context_creation() {
    let mut ids = RequestIds::new();
    let ctx = Context::new(&mut ids);
    assert!(ctx.request_id > 0);
    assert!(ctx.deadline.is_none());
}

#[test]
fn test_context_with_timeout() {
    let mut ids = RequestIds::new();
    let ctx = Context::with_timeout(&mut ids, Duration::from_secs(10));
    assert!(ctx.deadline.is_some());
    assert!(!ctx.is_expired());
    assert!(ctx.remaining().is_some());
}

#[test]
fn test_context_metadata() {
    let mut ids = RequestIds::new();
    let ctx = Context::new(&mut ids)
        .with_metadata("user-id", "123")
        .with_metadata("request-type", "query");

    assert_eq!(ctx.get_metadata("user-id"), Some("123"));
    assert_eq!(ctx.get_metadata("request-type"), Some("query"));
    assert_eq!(ctx.get_metadata("nonexistent"), None);
}

#[test]
fn test_child_context() {
    let mut ids = RequestIds::new();
    let parent = Context::new(&mut ids)
        .with_tracing(&mut ids)
        .with_metadata("inherited", "yes");

    let child = parent.child(&mut ids);

    assert_ne!(child.request_id, parent.request_id);
    assert_eq!(child.trace_id, parent.trace_id);
    assert_eq!(child.parent_span_id, Some(parent.request_id));
    assert_eq!(child.get_metadata("inherited"), Some("yes"));
}

#[test]
fn test_trace_id_display() {
    let trace_id = TraceId::from_bytes([
        0x01, 0x23, 0x45, 0x67, 0x89, 0xab, 0xcd, 0xef, 0x01, 0x23, 0x45, 0x67, 0x89, 0xab, 0xcd,
        0xef,
    ]);
    assert_eq!(trace_id.to_string(), "0123456789abcdef0123456789abcdef");
}

#[test]
fn request_ids_count_up_from_one() {
    let mut ids = RequestIds::new();
    assert_eq!(ids.next_request_id(), 1);
    assert_eq!(ids.next_request_id(), 2);
    assert_eq!(ids.next_request_id(), 3);
}

#[test]
fn contexts_get_distinct_ids() {
    let mut ids = RequestIds::new();
    let a = Context::new(&mut ids);
    let b = Context::new(&mut ids);
    assert_eq!(a.request_id, 1);
    assert_eq!(b.request_id, 2);
}

#[test]
fn metadata_later_value_wins() {
    let mut ids = RequestIds::new();
    let ctx = Context::new(&mut ids).with_metadata("k", "a").with_metadata("k", "b");
    assert_eq!(ctx.get_metadata("k"), Some("b"));
    assert_eq!(ctx.metadata.len(), 1);
}

#[test]
fn remaining_and_expiry_at_fixed_instants() {
    let mut ids = RequestIds::new();
    let now = Instant::now();
    let deadline = now + Duration::from_secs(5);
    let ctx = Context::with_deadline(&mut ids, deadline);
    assert_eq!(ctx.remaining_at(&now), Some(Duration::from_secs(5)));
    assert!(!ctx.is_expired_at(&now));
    let later = now + Duration::from_secs(6);
    assert_eq!(ctx.remaining_at(&later), None);
    assert!(ctx.is_expired_at(&later));
    assert!(ctx.is_expired_at(&deadline));
    assert_eq!(ctx.remaining_at(&deadline), None);
    let just_before = deadline - Duration::from_nanos(1);
    assert_eq!(ctx.remaining_at(&just_before), Some(Duration::from_nanos(1)));
}

#[test]
fn no_deadline_never_expires() {
    let mut ids = RequestIds::new();
    let ctx = Context::new(&mut ids);
    let now = Instant::now();
    assert_eq!(ctx.remaining_at(&now), None);
    assert!(!ctx.is_expired_at(&now));
    assert!(!ctx.is_expired());
}

#[test]
fn deadline_after_adds_the_timeout() {
    let now = Instant::now();
    assert_eq!(deadline_after(&now, Duration::from_secs(3)), Some(now + Duration::from_secs(3)));
}

#[test]
fn timeout_builder_sets_deadline() {
    let mut ids = RequestIds::new();
    let ctx = Context::new(&mut ids).timeout(Duration::from_secs(60));
    assert!(ctx.deadline.is_some());
    assert!(ctx.remaining().unwrap() <= Duration::from_secs(60));
}

#[test]
fn child_of_untraced_context_is_untraced() {
    let mut ids = RequestIds::new();
    let parent = Context::new(&mut ids);
    let child = parent.child(&mut ids);
    assert!(parent.trace_id.is_none());
    assert!(child.trace_id.is_none());
    assert_eq!(child.parent_span_id, Some(parent.request_id));
}

#[test]
fn trace_id_bytes_round_trip() {
    let bytes = [7u8; 16];
    let t = TraceId::from_bytes(bytes);
    assert_eq!(t.as_bytes(), &bytes);
    assert_eq!(t.clone(), t);
    assert_eq!(t.to_string(), "07070707070707070707070707070707");
}

#[test]
fn trace_id_new_carries_request_id() {
    let mut ids = RequestIds::new();
    let t = TraceId::new(&mut ids);
    assert_eq!(&t.as_bytes()[8..16], &1u64.to_le_bytes());
    assert_eq!(ids.next_request_id(), 2);
}

#[test]
fn cloned_context_keeps_everything() {
    let mut ids = RequestIds::new();
    let ctx = Context::with_timeout(&mut ids, Duration::from_secs(5))
        .with_tracing(&mut ids)
        .with_metadata("a", "b");
    let copy = ctx.clone();
    assert_eq!(copy.request_id, ctx.request_id);
    assert_eq!(copy.deadline, ctx.deadline);
    assert_eq!(copy.trace_id, ctx.trace_id);
    assert_eq!(copy.parent_span_id, ctx.parent_span_id);
    assert_eq!(copy.get_metadata("a"), Some("b"));
}
