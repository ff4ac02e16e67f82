//! RPC message envelope types.
//!
//! These types make up the wire format of RPC messages; their rkyv form is
//! produced by the application layer.
use vstd::prelude::*;

verus! {

/// RPC message envelope containing routing and payload information.
#[derive(Debug, Clone, PartialEq)]
pub struct RpcEnvelope {
    /// Unique request ID for correlation.
    pub request_id: u64,
    /// Type of message (request, response, stream, etc.)
    pub message_type: MessageType,
    /// Target service name.
    pub service: String,
    /// Target method name.
    pub method: String,
    /// Serialized payload (service-specific request/response).
    pub payload: Vec<u8>,
}

/// Type of RPC message.
#[derive(Debug, Clone, Copy, PartialEq, Eq, Structural)]
pub enum MessageType {
    /// Unary request expecting a response.
    Request,
    /// Response to a request.
    Response,
    /// Error response.
    Error,
    /// Start of a stream.
    StreamStart,
    /// Data item in a stream.
    StreamData,
    /// End of a stream.
    StreamEnd,
    /// Stream cancelled by sender.
    StreamCancel,
    /// Ping for keepalive.
    Ping,
    /// Pong response to ping.
    Pong,
}

/// Error information sent in error responses.
#[derive(Debug, Clone, PartialEq)]
pub struct RpcError {
    /// Error code for programmatic handling.
    pub code: u32,
    /// Human-readable error message.
    pub message: String,
    /// Optional additional details.
    pub details: Option<Vec<u8>>,
}

/// Whether a message of this type expects no reply: a request.
pub open spec fn spec_is_request(t: MessageType) -> bool {
    t is Request
}

/// Whether a message of this type answers a request: a response or an error.
pub open spec fn spec_is_response(t: MessageType) -> bool {
    t is Response || t is Error
}

/// Whether a message of this type belongs to a stream.
pub open spec fn spec_is_stream(t: MessageType) -> bool {
    t is StreamStart || t is StreamData || t is StreamEnd || t is StreamCancel
}

/// The fields of an envelope, as plain values.
pub open spec fn envelope_is(
    e: RpcEnvelope,
    request_id: u64,
    message_type: MessageType,
    service: Seq<char>,
    method: Seq<char>,
    payload: Seq<u8>,
) -> bool {
    &&& e.request_id == request_id
    &&& e.message_type == message_type
    &&& e.service@ == service
    &&& e.method@ == method
    &&& e.payload@ == payload
}

impl RpcEnvelope {
    /// Create a new request envelope.
    pub fn request(request_id: u64, service: &str, method: &str, payload: Vec<u8>) -> (r: Self)
        ensures
            envelope_is(r, request_id, MessageType::Request, service@, method@, payload@),
    {
        RpcEnvelope {
            request_id,
            message_type: MessageType::Request,
            service: service.to_owned(),
            method: method.to_owned(),
            payload,
        }
    }

    /// Create a response envelope.
    pub fn response(request_id: u64, service: &str, method: &str, payload: Vec<u8>) -> (r: Self)
        ensures
            envelope_is(r, request_id, MessageType::Response, service@, method@, payload@),
    {
        RpcEnvelope {
            request_id,
            message_type: MessageType::Response,
            service: service.to_owned(),
            method: method.to_owned(),
            payload,
        }
    }

    /// Create an error response envelope whose payload is `encoded_error`,
    /// the error as serialized for the wire (empty when it could not be).
    pub fn error_with_payload(request_id: u64, service: &str, method: &str, encoded_error: Vec<u8>) -> (r:
        Self)
        ensures
            envelope_is(r, request_id, MessageType::Error, service@, method@, encoded_error@),
    {
        RpcEnvelope {
            request_id,
            message_type: MessageType::Error,
            service: service.to_owned(),
            method: method.to_owned(),
            payload: encoded_error,
        }
    }

    /// Create a ping message.
    pub fn ping(request_id: u64) -> (r: Self)
        ensures
            envelope_is(r, request_id, MessageType::Ping, Seq::empty(), Seq::empty(), Seq::empty()),
    {
        RpcEnvelope {
            request_id,
            message_type: MessageType::Ping,
            service: String::new(),
            method: String::new(),
            payload: Vec::new(),
        }
    }

    /// Create a pong response.
    pub fn pong(request_id: u64) -> (r: Self)
        ensures
            envelope_is(r, request_id, MessageType::Pong, Seq::empty(), Seq::empty(), Seq::empty()),
    {
        RpcEnvelope {
            request_id,
            message_type: MessageType::Pong,
            service: String::new(),
            method: String::new(),
            payload: Vec::new(),
        }
    }

    /// Create a stream start message.
    pub fn stream_start(request_id: u64, service: &str, method: &str) -> (r: Self)
        ensures
            envelope_is(r, request_id, MessageType::StreamStart, service@, method@, Seq::empty()),
    {
        RpcEnvelope {
            request_id,
            message_type: MessageType::StreamStart,
            service: service.to_owned(),
            method: method.to_owned(),
            payload: Vec::new(),
        }
    }

    /// Create a stream data message.
    pub fn stream_data(request_id: u64, service: &str, method: &str, payload: Vec<u8>) -> (r: Self)
        ensures
            envelope_is(r, request_id, MessageType::StreamData, service@, method@, payload@),
    {
        RpcEnvelope {
            request_id,
            message_type: MessageType::StreamData,
            service: service.to_owned(),
            method: method.to_owned(),
            payload,
        }
    }

    /// Create a stream end message.
    pub fn stream_end(request_id: u64, service: &str, method: &str) -> (r: Self)
        ensures
            envelope_is(r, request_id, MessageType::StreamEnd, service@, method@, Seq::empty()),
    {
        RpcEnvelope {
            request_id,
            message_type: MessageType::StreamEnd,
            service: service.to_owned(),
            method: method.to_owned(),
            payload: Vec::new(),
        }
    }

    /// Check if this is a request message.
    pub fn is_request(&self) -> (r: bool)
        ensures
            r == spec_is_request(self.message_type),
    {
        match self.message_type {
            MessageType::Request => true,
            _ => false,
        }
    }

    /// Check if this is a response message (a response or an error).
    pub fn is_response(&self) -> (r: bool)
        ensures
            r == spec_is_response(self.message_type),
    {
        match self.message_type {
            MessageType::Response | MessageType::Error => true,
            _ => false,
        }
    }

    /// Check if this is a streaming message.
    pub fn is_stream(&self) -> (r: bool)
        ensures
            r == spec_is_stream(self.message_type),
    {
        match self.message_type {
            MessageType::StreamStart | MessageType::StreamData | MessageType::StreamEnd
            | MessageType::StreamCancel => true,
            _ => false,
        }
    }
}

/// No message type is of two kinds: requests, responses and stream messages
/// are told apart, and pings and pongs are none of them.
pub proof fn lemma_message_kinds_disjoint(t: MessageType)
    ensures
        !(spec_is_request(t) && spec_is_response(t)),
        !(spec_is_request(t) && spec_is_stream(t)),
        !(spec_is_response(t) && spec_is_stream(t)),
        (t is Ping || t is Pong) <==> !(spec_is_request(t) || spec_is_response(t) || spec_is_stream(t)),
{
}

/// How each message type is classified: only a request is a request; a
/// response and an error are the responses; the four stream message types
/// (start, data, end and cancel) are the stream messages.
pub proof fn lemma_message_kinds(t: MessageType)
    ensures
        spec_is_request(t) <==> t is Request,
        spec_is_response(t) <==> (t is Response || t is Error),
        spec_is_stream(t) <==> (t is StreamStart || t is StreamData || t is StreamEnd || t is StreamCancel),
{
}

impl RpcError {
    /// Error code for cancelled requests.
    pub const CANCELLED: u32 = 1;
    /// Error code for unknown errors.
    pub const UNKNOWN: u32 = 2;
    /// Error code for invalid arguments.
    pub const INVALID_ARGUMENT: u32 = 3;
    /// Error code for deadline exceeded.
    pub const DEADLINE_EXCEEDED: u32 = 4;
    /// Error code for not found.
    pub const NOT_FOUND: u32 = 5;
    /// Error code for already exists.
    pub const ALREADY_EXISTS: u32 = 6;
    /// Error code for permission denied.
    pub const PERMISSION_DENIED: u32 = 7;
    /// Error code for resource exhausted.
    pub const RESOURCE_EXHAUSTED: u32 = 8;
    /// Error code for internal errors.
    pub const INTERNAL: u32 = 13;
    /// Error code for unavailable service.
    pub const UNAVAILABLE: u32 = 14;

    /// Create a new RPC error without details.
    pub fn new(code: u32, message: &str) -> (r: Self)
        ensures
            r.code == code,
            r.message@ == message@,
            r.details is None,
    {
        RpcError { code, message: message.to_owned(), details: None }
    }

    /// Create an error with details.
    pub fn with_details(code: u32, message: &str, details: Vec<u8>) -> (r: Self)
        ensures
            r.code == code,
            r.message@ == message@,
            r.details == Some(details),
    {
        RpcError { code, message: message.to_owned(), details: Some(details) }
    }
}

} // verus!
