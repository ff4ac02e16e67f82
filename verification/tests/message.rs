use nimbus::message::{MessageType, RpcEnvelope, RpcError};

#[test]
fn test_message_types() {
    let req = RpcEnvelope::request(1, "svc", "method", vec![]);
    assert!(req.is_request());
    assert!(!req.is_response());
    assert!(!req.is_stream());

    let resp = RpcEnvelope::response(1, "svc", "method", vec![]);
    assert!(!resp.is_request());
    assert!(resp.is_response());

    let stream = RpcEnvelope::stream_data(1, "svc", "method", vec![]);
    assert!(stream.is_stream());
}

#[test]
fn envelope_fields() {
    let e = RpcEnvelope::request(42, "calculator", "add", vec![1, 2, 3, 4]);
    assert_eq!(e.request_id, 42);
    assert_eq!(e.message_type, MessageType::Request);
    assert_eq!(e.service, "calculator");
    assert_eq!(e.method, "add");
    assert_eq!(e.payload, vec![1, 2, 3, 4]);
}

#[test]
fn ping_and_pong_are_control_messages() {
    let ping = RpcEnvelope::ping(9);
    let pong = RpcEnvelope::pong(9);
    assert_eq!(ping.message_type, MessageType::Ping);
    assert_eq!(pong.message_type, MessageType::Pong);
    for e in [&ping, &pong] {
        assert!(!e.is_request());
        assert!(!e.is_response());
        assert!(!e.is_stream());
        assert!(e.service.is_empty());
        assert!(e.method.is_empty());
        assert!(e.payload.is_empty());
        assert_eq!(e.request_id, 9);
    }
}

#[test]
fn stream_messages() {
    let start = RpcEnvelope::stream_start(3, "s", "m");
    let end = RpcEnvelope::stream_end(3, "s", "m");
    assert_eq!(start.message_type, MessageType::StreamStart);
    assert_eq!(end.message_type, MessageType::StreamEnd);
    assert!(start.is_stream() && end.is_stream());
    assert!(start.payload.is_empty() && end.payload.is_empty());
    let data = RpcEnvelope::stream_data(3, "s", "m", vec![5]);
    assert_eq!(data.payload, vec![5]);
}

#[test]
fn rpc_error_constructors() {
    let e = RpcError::new(RpcError::NOT_FOUND, "missing");
    assert_eq!(e.code, 5);
    assert_eq!(e.message, "missing");
    assert_eq!(e.details, None);
    let d = RpcError::with_details(RpcError::INTERNAL, "oops", vec![1]);
    assert_eq!(d.code, 13);
    assert_eq!(d.details, Some(vec![1]));
    assert_eq!(RpcError::UNAVAILABLE, 14);
    assert_eq!(RpcError::CANCELLED, 1);
}

#[test]
fn error_envelope_fields() {
    let e = RpcEnvelope::error_with_payload(7, "calculator", "divide", vec![9, 8]);
    assert_eq!(e.request_id, 7);
    assert_eq!(e.message_type, MessageType::Error);
    assert_eq!(e.service, "calculator");
    assert_eq!(e.method, "divide");
    assert_eq!(e.payload, vec![9, 8]);
    assert!(e.is_response());
    assert!(!e.is_request());
}
