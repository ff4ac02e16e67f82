use nimbus::error::{CodecError, NimbusError, TransportError};
use std::sync::Arc;
use std::time::Duration;

#[test]
fn test_error_display() {
    let err = NimbusError::service(404, "user not found");
    assert_eq!(err.to_string(), "service error [404]: user not found");
}

#[test]
fn test_retryable() {
    assert!(NimbusError::Timeout(Duration::from_secs(1)).is_retryable());
    assert!(!NimbusError::Cancelled.is_retryable());
}

fn io_error() -> NimbusError {
    NimbusError::Transport(TransportError::Io(Arc::new(std::io::Error::other("boom"))))
}

#[test]
fn retryable_errors_are_exactly_the_transient_ones() {
    assert!(io_error().is_retryable());
    assert!(NimbusError::Transport(TransportError::ConnectionClosed).is_retryable());
    assert!(NimbusError::Transport(TransportError::PoolExhausted).is_retryable());
    assert!(!NimbusError::Transport(TransportError::Protocol("x".to_string())).is_retryable());
    assert!(!NimbusError::Transport(TransportError::ConnectionFailed("x".to_string())).is_retryable());
    assert!(!NimbusError::service(1, "x").is_retryable());
    assert!(!NimbusError::Codec(CodecError::Alignment).is_retryable());
}

#[test]
fn connection_errors() {
    assert!(io_error().is_connection_error());
    assert!(NimbusError::Transport(TransportError::ConnectionClosed).is_connection_error());
    assert!(NimbusError::Transport(TransportError::Protocol("bad".to_string())).is_connection_error());
    assert!(!NimbusError::Transport(TransportError::PoolExhausted).is_connection_error());
    assert!(!NimbusError::Timeout(Duration::from_secs(1)).is_connection_error());
    assert!(!NimbusError::Cancelled.is_connection_error());
}

#[test]
fn nimbus_error_messages() {
    assert_eq!(NimbusError::Cancelled.to_string(), "request cancelled");
    assert_eq!(NimbusError::MethodNotFound("m".to_string()).to_string(), "method not found: m");
    assert_eq!(NimbusError::ServiceNotFound("s".to_string()).to_string(), "service not found: s");
    assert_eq!(NimbusError::InvalidRequest("r".to_string()).to_string(), "invalid request: r");
    assert_eq!(NimbusError::Timeout(Duration::from_millis(1500)).to_string(), "timeout after 1.5s");
    assert_eq!(
        NimbusError::Codec(CodecError::FrameTooLarge { size: 200, max: 100 }).to_string(),
        "codec error: frame too large: 200 bytes (max: 100)"
    );
    assert_eq!(
        NimbusError::Transport(TransportError::ConnectionClosed).to_string(),
        "transport error: connection closed"
    );
    assert_eq!(io_error().to_string(), "transport error: io error: boom");
}

#[test]
fn transport_error_messages() {
    assert_eq!(TransportError::ConnectionClosed.to_string(), "connection closed");
    assert_eq!(TransportError::ConnectionFailed("refused".to_string()).to_string(), "connection failed: refused");
    assert_eq!(TransportError::PoolExhausted.to_string(), "no available connections");
    assert_eq!(TransportError::DnsResolutionFailed("x".to_string()).to_string(), "dns resolution failed: x");
    assert_eq!(TransportError::Tls("bad cert".to_string()).to_string(), "tls error: bad cert");
    assert_eq!(TransportError::Protocol("p".to_string()).to_string(), "protocol error: p");
}

#[test]
fn codec_error_messages() {
    assert_eq!(CodecError::FrameTooLarge { size: 0, max: 10 }.to_string(), "frame too large: 0 bytes (max: 10)");
    assert_eq!(CodecError::InvalidFrame("f".to_string()).to_string(), "invalid frame: f");
    assert_eq!(CodecError::Serialization("s".to_string()).to_string(), "serialization error: s");
    assert_eq!(CodecError::Deserialization("d".to_string()).to_string(), "deserialization error: d");
    assert_eq!(CodecError::Alignment.to_string(), "alignment error: buffer not properly aligned");
}

#[test]
fn service_error_fields() {
    match NimbusError::service(7, "denied") {
        NimbusError::Service { code, message } => {
            assert_eq!(code, 7);
            assert_eq!(message, "denied");
        }
        other => panic!("unexpected {:?}", other),
    }
}

#[test]
fn io_error_messages() {
    let io = || TransportError::Io(Arc::new(std::io::Error::other("disk gone")));
    assert_eq!(io().to_string(), "io error: disk gone");
    assert_eq!(NimbusError::Transport(io()).to_string(), "transport error: io error: disk gone");
}
