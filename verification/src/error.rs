//! Error types for the framework.
use vstd::prelude::*;
use std::sync::Arc;
use std::time::Duration;
use vstd::string::*;

use crate::clock::duration_nanos;
use crate::text::{decimal_string, decimal_text};

verus! {

#[verifier::external_type_specification]
#[verifier::external_body]
pub struct ExIoError(std::io::Error);

/// Main error type.
#[derive(Debug, Clone)]
pub enum NimbusError {
    /// Transport-level error (connection, IO, etc.)
    Transport(TransportError),
    /// Codec error (serialization/deserialization)
    Codec(CodecError),
    /// Service-level error returned by the RPC handler
    Service {
        /// Error code for programmatic handling
        code: u32,
        /// Human-readable error message
        message: String,
    },
    /// Request timed out
    Timeout(Duration),
    /// Request was cancelled
    Cancelled,
    /// Method not found on the service
    MethodNotFound(String),
    /// Service not found
    ServiceNotFound(String),
    /// Invalid request format
    InvalidRequest(String),
}

/// Transport-level errors.
#[derive(Debug, Clone)]
pub enum TransportError {
    /// IO error from the underlying transport
    Io(Arc<std::io::Error>),
    /// Connection was closed unexpectedly
    ConnectionClosed,
    /// Failed to connect to the remote endpoint
    ConnectionFailed(String),
    /// Connection pool exhausted
    PoolExhausted,
    /// DNS resolution failed
    DnsResolutionFailed(String),
    /// TLS handshake failed
    Tls(String),
    /// Protocol violation
    Protocol(String),
}

/// Codec errors for serialization and framing.
#[derive(Debug, Clone)]
pub enum CodecError {
    /// Frame size exceeds maximum allowed
    FrameTooLarge {
        /// Actual frame size
        size: usize,
        /// Maximum allowed size
        max: usize,
    },
    /// Invalid frame format
    InvalidFrame(String),
    /// Serialization failed
    Serialization(String),
    /// Deserialization/validation failed
    Deserialization(String),
    /// Buffer alignment error
    Alignment,
}

/// Whether an error is worth retrying: IO errors, closed connections, an
/// exhausted pool, and timeouts.
pub open spec fn spec_is_retryable(e: NimbusError) -> bool {
    match e {
        NimbusError::Transport(TransportError::Io(_)) => true,
        NimbusError::Transport(TransportError::ConnectionClosed) => true,
        NimbusError::Transport(TransportError::PoolExhausted) => true,
        NimbusError::Timeout(_) => true,
        _ => false,
    }
}

/// Whether an error means the connection should be closed: a closed
/// connection, an IO error, or a protocol violation.
pub open spec fn spec_is_connection_error(e: NimbusError) -> bool {
    match e {
        NimbusError::Transport(TransportError::ConnectionClosed) => true,
        NimbusError::Transport(TransportError::Io(_)) => true,
        NimbusError::Transport(TransportError::Protocol(_)) => true,
        _ => false,
    }
}

impl NimbusError {
    /// Create a service error with code and message.
    pub fn service(code: u32, message: &str) -> (r: Self)
        ensures
            r matches NimbusError::Service { code: c, message: m } && c == code && m@ == message@,
    {
        NimbusError::Service { code, message: message.to_owned() }
    }

    /// Check if this error is retryable.
    pub fn is_retryable(&self) -> (r: bool)
        ensures
            r == spec_is_retryable(*self),
    {
        match self {
            NimbusError::Transport(TransportError::Io(_)) => true,
            NimbusError::Transport(TransportError::ConnectionClosed) => true,
            NimbusError::Transport(TransportError::PoolExhausted) => true,
            NimbusError::Timeout(_) => true,
            _ => false,
        }
    }

    /// Check if this error indicates the connection should be closed.
    pub fn is_connection_error(&self) -> (r: bool)
        ensures
            r == spec_is_connection_error(*self),
    {
        match self {
            NimbusError::Transport(TransportError::ConnectionClosed) => true,
            NimbusError::Transport(TransportError::Io(_)) => true,
            NimbusError::Transport(TransportError::Protocol(_)) => true,
            _ => false,
        }
    }
}


/// The message of a transport error that carries its own text, after the
/// variant's prefix. IO errors are written by std and are stated by prefix
/// only (see `TransportError::to_string`).
pub open spec fn transport_text(e: TransportError) -> Seq<char> {
    match e {
        TransportError::Io(_) => "io error: "@,
        TransportError::ConnectionClosed => "connection closed"@,
        TransportError::ConnectionFailed(s) => "connection failed: "@ + s@,
        TransportError::PoolExhausted => "no available connections"@,
        TransportError::DnsResolutionFailed(s) => "dns resolution failed: "@ + s@,
        TransportError::Tls(s) => "tls error: "@ + s@,
        TransportError::Protocol(s) => "protocol error: "@ + s@,
    }
}

/// The message of a codec error.
pub open spec fn codec_text(e: CodecError) -> Seq<char> {
    match e {
        CodecError::FrameTooLarge { size, max } => "frame too large: "@ + decimal_text(size as nat)
            + " bytes (max: "@ + decimal_text(max as nat) + ")"@,
        CodecError::InvalidFrame(s) => "invalid frame: "@ + s@,
        CodecError::Serialization(s) => "serialization error: "@ + s@,
        CodecError::Deserialization(s) => "deserialization error: "@ + s@,
        CodecError::Alignment => "alignment error: buffer not properly aligned"@,
    }
}

/// The message of an error. For an IO error, the part that std writes (the IO
/// error's own message) is left out, and the text is the message's prefix
/// (see `NimbusError::to_string`).
pub open spec fn nimbus_text(e: NimbusError) -> Seq<char> {
    match e {
        NimbusError::Transport(t) => "transport error: "@ + transport_text(t),
        NimbusError::Codec(c) => "codec error: "@ + codec_text(c),
        NimbusError::Service { code, message } => "service error ["@ + decimal_text(code as nat)
            + "]: "@ + message@,
        NimbusError::Timeout(d) => "timeout after "@ + duration_debug_of(duration_nanos(d)),
        NimbusError::Cancelled => "request cancelled"@,
        NimbusError::MethodNotFound(s) => "method not found: "@ + s@,
        NimbusError::ServiceNotFound(s) => "service not found: "@ + s@,
        NimbusError::InvalidRequest(s) => "invalid request: "@ + s@,
    }
}

/// Whether the message of an error has a part that std writes and that is
/// not stated here.
pub open spec fn has_std_text(e: NimbusError) -> bool {
    e matches NimbusError::Transport(TransportError::Io(_))
}

/// The `Debug` form of a duration of `nanos` nanoseconds (such as `1.5s` or
/// `100ms`), as std writes it; it depends on the span alone.
pub uninterp spec fn duration_debug_of(nanos: nat) -> Seq<char>;

/// The text an IO error carries as its payload, when it was made from one
/// (by `io::Error::new` or `io::Error::other`); `None` for an error the
/// operating system reported or one made from a kind alone.
pub uninterp spec fn io_error_message(e: std::io::Error) -> Option<Seq<char>>;

/// `<std::io::Error as Display>::fmt`, through `to_string`: for an error made
/// from a text, that text. The text of other errors is std's and the
/// operating system's, and is not stated.
#[verifier::external_body]
pub(crate) fn io_error_text(e: &std::io::Error) -> (r: String)
    ensures
        io_error_message(*e) matches Some(m) ==> r@ == m,
{
    e.to_string()
}

/// `<Duration as Debug>::fmt`, through `format!`: the duration's `Debug`
/// form, which std derives from its span alone (the unit and precision are
/// std's choice and are not stated).
#[verifier::external_body]
fn duration_debug_text(d: &Duration) -> (r: String)
    ensures
        r@ == duration_debug_of(duration_nanos(*d)),
{
    format!("{:?}", d)
}

impl TransportError {
    /// The error's message.
    pub fn to_string(&self) -> (r: String)
        ensures
            !(self is Io) ==> r@ == transport_text(*self),
            transport_text(*self).is_prefix_of(r@),
            self matches TransportError::Io(e) ==> (io_error_message(**e) matches Some(m) ==> r@
                == "io error: "@ + m),
    {
        let mut s = String::new();
        match self {
            TransportError::Io(e) => {
                s.append("io error: ");
                let detail = io_error_text(&**e);
                s.append(detail.as_str());
                proof {
                    assert(s@ =~= "io error: "@ + detail@);
                }
            },
            TransportError::ConnectionClosed => s.append("connection closed"),
            TransportError::ConnectionFailed(m) => {
                s.append("connection failed: ");
                s.append(m.as_str());
            },
            TransportError::PoolExhausted => s.append("no available connections"),
            TransportError::DnsResolutionFailed(m) => {
                s.append("dns resolution failed: ");
                s.append(m.as_str());
            },
            TransportError::Tls(m) => {
                s.append("tls error: ");
                s.append(m.as_str());
            },
            TransportError::Protocol(m) => {
                s.append("protocol error: ");
                s.append(m.as_str());
            },
        }
        proof {
            assert(transport_text(*self).is_prefix_of(s@)) by {
                assert(s@.subrange(0, transport_text(*self).len() as int) =~= transport_text(*self));
            }
        }
        s
    }
}

impl CodecError {
    /// The error's message.
    pub fn to_string(&self) -> (r: String)
        ensures
            r@ == codec_text(*self),
    {
        let mut s = String::new();
        match self {
            CodecError::FrameTooLarge { size, max } => {
                s.append("frame too large: ");
                let a = decimal_string(*size as u64);
                s.append(a.as_str());
                s.append(" bytes (max: ");
                let b = decimal_string(*max as u64);
                s.append(b.as_str());
                s.append(")");
            },
            CodecError::InvalidFrame(m) => {
                s.append("invalid frame: ");
                s.append(m.as_str());
            },
            CodecError::Serialization(m) => {
                s.append("serialization error: ");
                s.append(m.as_str());
            },
            CodecError::Deserialization(m) => {
                s.append("deserialization error: ");
                s.append(m.as_str());
            },
            CodecError::Alignment => s.append("alignment error: buffer not properly aligned"),
        }
        proof {
            assert(s@ =~= codec_text(*self));
        }
        s
    }
}

impl NimbusError {
    /// The error's message, such as `service error [404]: user not found`.
    pub fn to_string(&self) -> (r: String)
        ensures
            !has_std_text(*self) ==> r@ == nimbus_text(*self),
            nimbus_text(*self).is_prefix_of(r@),
            self matches NimbusError::Transport(TransportError::Io(e)) ==> (io_error_message(**e) matches Some(
                m,
            ) ==> r@ == "transport error: io error: "@ + m),
    {
        let mut s = String::new();
        match self {
            NimbusError::Transport(t) => {
                s.append("transport error: ");
                let m = t.to_string();
                s.append(m.as_str());
                proof {
                    assert(s@ =~= "transport error: "@ + m@);
                    assert(*t matches TransportError::Io(e) ==> (io_error_message(*e) matches Some(x) ==> s@
                        =~= "transport error: io error: "@ + x)) by {
                        reveal_strlit("transport error: ");
                        reveal_strlit("io error: ");
                        reveal_strlit("transport error: io error: ");
                    }
                }
            },
            NimbusError::Codec(c) => {
                s.append("codec error: ");
                let m = c.to_string();
                s.append(m.as_str());
            },
            NimbusError::Service { code, message } => {
                s.append("service error [");
                let d = decimal_string(*code as u64);
                s.append(d.as_str());
                s.append("]: ");
                s.append(message.as_str());
            },
            NimbusError::Timeout(d) => {
                s.append("timeout after ");
                let m = duration_debug_text(d);
                s.append(m.as_str());
            },
            NimbusError::Cancelled => s.append("request cancelled"),
            NimbusError::MethodNotFound(m) => {
                s.append("method not found: ");
                s.append(m.as_str());
            },
            NimbusError::ServiceNotFound(m) => {
                s.append("service not found: ");
                s.append(m.as_str());
            },
            NimbusError::InvalidRequest(m) => {
                s.append("invalid request: ");
                s.append(m.as_str());
            },
        }
        proof {
            assert(nimbus_text(*self).is_prefix_of(s@)) by {
                assert(s@.subrange(0, nimbus_text(*self).len() as int) =~= nimbus_text(*self));
            }
            if !has_std_text(*self) {
                assert(s@ =~= nimbus_text(*self));
            }
        }
        s
    }
}

/// The errors worth retrying are exactly IO errors, closed connections, an
/// exhausted pool and timeouts: no other transport error (a failed
/// connection, a failed lookup, a TLS or protocol error), and no codec,
/// service, cancellation or lookup error, is retried.
pub proof fn lemma_retryable_errors(e: NimbusError)
    ensures
        spec_is_retryable(e) <==> (e matches NimbusError::Transport(TransportError::Io(_)) || e
            == NimbusError::Transport(TransportError::ConnectionClosed) || e == NimbusError::Transport(
            TransportError::PoolExhausted,
        ) || e is Timeout),
        e matches NimbusError::Transport(TransportError::ConnectionFailed(_)) ==> !spec_is_retryable(e),
        e matches NimbusError::Transport(TransportError::DnsResolutionFailed(_)) ==> !spec_is_retryable(e),
        e matches NimbusError::Transport(TransportError::Tls(_)) ==> !spec_is_retryable(e),
        e matches NimbusError::Transport(TransportError::Protocol(_)) ==> !spec_is_retryable(e),
        !(e is Transport || e is Timeout) ==> !spec_is_retryable(e),
{
}

/// The errors that close a connection are exactly closed connections, IO
/// errors and protocol violations.
pub proof fn lemma_connection_errors(e: NimbusError)
    ensures
        spec_is_connection_error(e) <==> (e == NimbusError::Transport(TransportError::ConnectionClosed)
            || e matches NimbusError::Transport(TransportError::Io(_)) || e matches NimbusError::Transport(
            TransportError::Protocol(_),
        )),
{
}

/// Every error that closes a connection and is retryable is a transport
/// error: a timeout is retried on the same connection, a protocol violation
/// closes it without a retry.
pub proof fn lemma_connection_errors_retry(e: NimbusError)
    ensures
        spec_is_connection_error(e) ==> (spec_is_retryable(e) <==> !(e matches NimbusError::Transport(TransportError::Protocol(_)))),
        spec_is_retryable(e) && spec_is_connection_error(e) ==> e is Transport,
{
}

} // verus!
