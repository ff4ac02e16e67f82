//! The decisions of a framed connection, apart from its I/O: what a server
//! does with the bytes it has read, how a message becomes the bytes that are
//! written, and how a unary call ends.
use vstd::prelude::*;
use std::time::Duration;
use rkyv::util::AlignedVec;
use ntex_bytes::BytesMut;

use crate::buffers::{aligned_bytes, buffer_bytes, buffer_max_len, buffer_with_capacity};
use crate::clock::{duration_from_secs, duration_nanos};
use crate::codec::{frame_bytes, frame_payload, frame_status, slice_decode_fits, FrameStatus, NimbusCodec};
use crate::error::{CodecError, NimbusError};
use crate::mux::{Multiplexer, ResponseResult};

verus! {

/// How long a call waits for its response when its context has no deadline.
pub const DEFAULT_CALL_TIMEOUT_SECS: u64 = 30;

/// What a server connection does next, once it may read.
pub enum ServerStep {
    /// The peer closed the connection, or sent a frame that cannot be
    /// accepted: the connection ends.
    Close,
    /// The buffer holds no whole frame yet: wait for more bytes.
    Wait,
    /// A whole request frame: its payload goes to the handler, and the first
    /// `consumed` bytes of the read buffer are dropped.
    Handle { payload: AlignedVec, consumed: usize },
}

/// Decides what a server connection does with its read buffer. `closed` is
/// whether waiting for data failed or the connection was closed.
pub fn server_step(codec: &NimbusCodec, closed: bool, read_buf: &[u8]) -> (r: ServerStep)
    requires
        !closed ==> slice_decode_fits(codec.spec_max_frame_size(), read_buf@),
    ensures
        closed ==> r is Close,
        !closed ==> match frame_status(codec.spec_max_frame_size(), read_buf@) {
            FrameStatus::NeedMore => r is Wait,
            FrameStatus::TooLarge(_) => r is Close,
            FrameStatus::Ready(n) => r matches ServerStep::Handle { payload, consumed }
                && consumed == 4 + n && aligned_bytes(payload) == frame_payload(read_buf@, n),
        },
{
    if closed {
        return ServerStep::Close;
    }
    match codec.decode_slice(read_buf) {
        Ok(Some((payload, consumed))) => ServerStep::Handle { payload, consumed },
        Ok(None) => ServerStep::Wait,
        Err(_) => ServerStep::Close,
    }
}

/// The bytes to write for one message: a fresh buffer holding its frame, or
/// `FrameTooLarge` when the message is longer than the codec accepts.
pub fn frame_message(codec: &NimbusCodec, message: &[u8]) -> (r: Result<BytesMut, CodecError>)
    requires
        4 + message@.len() <= buffer_max_len(),
    ensures
        message@.len() <= codec.spec_max_frame_size() ==> (r matches Ok(b) && buffer_bytes(b)
            == frame_bytes(message@)),
        message@.len() > codec.spec_max_frame_size() ==> (r matches Err(
            CodecError::FrameTooLarge { size, max },
        ) && size == message@.len() && max == codec.spec_max_frame_size()),
{
    let mut buf = buffer_with_capacity(4 + message.len());
    match codec.encode_slice(message, &mut buf) {
        Ok(()) => {
            proof {
                assert(Seq::<u8>::empty() + frame_bytes(message@) =~= frame_bytes(message@));
            }
            Ok(buf)
        },
        Err(e) => Err(e),
    }
}

/// How long a call waits for its response: the time left before the
/// context's deadline, or `DEFAULT_CALL_TIMEOUT_SECS` when it has none.
pub fn call_timeout(remaining: Option<Duration>) -> (r: Duration)
    ensures
        remaining matches Some(d) ==> r == d,
        remaining is None ==> duration_nanos(r) == DEFAULT_CALL_TIMEOUT_SECS * 1_000_000_000,
{
    match remaining {
        Some(d) => d,
        None => duration_from_secs(DEFAULT_CALL_TIMEOUT_SECS),
    }
}

/// How the wait for a call's response ended.
pub enum CallWait {
    /// The multiplexer delivered a response or an error.
    Answered(ResponseResult),
    /// The response's sender was dropped without sending.
    Dropped,
    /// The timeout passed first.
    Elapsed,
}

/// Ends a unary call: an answer is returned as it came, a dropped sender
/// gives `Cancelled`, and a timeout stops waiting on the request and gives
/// `Timeout` with the time waited.
pub fn finish_call(mux: &mut Multiplexer, request_id: u64, timeout: Duration, wait: CallWait) -> (r:
    ResponseResult)
    ensures
        wait matches CallWait::Answered(a) ==> r == a && final(mux)@ == old(mux)@,
        wait is Dropped ==> (r matches Err(NimbusError::Cancelled) && final(mux)@ == old(mux)@),
        wait is Elapsed ==> (r matches Err(NimbusError::Timeout(d)) && d == timeout && final(mux)@
            == old(mux)@.remove(request_id)),
        final(mux).spec_next_id() == old(mux).spec_next_id(),
{
    match wait {
        CallWait::Answered(a) => a,
        CallWait::Dropped => Err(NimbusError::Cancelled),
        CallWait::Elapsed => {
            mux.cancel(request_id);
            Err(NimbusError::Timeout(timeout))
        },
    }
}

} // verus!
