//! Length-prefixed frame codec.
//!
//! A frame is a 4-byte little-endian payload length followed by the payload:
//!
//! ```text
//! +----------------+------------------+
//! | Length (4 LE)  | Payload (N bytes)|
//! +----------------+------------------+
//! ```
//!
//! Decoded payloads are copied into an `AlignedVec` so that they can be read
//! in place by rkyv.
use vstd::prelude::*;
use rkyv::util::AlignedVec;
use ntex_bytes::BytesMut;

use crate::buffers::{
    aligned_as_slice, aligned_bytes, aligned_extend_from_slice, aligned_max_capacity,
    aligned_with_capacity, buffer_advance, buffer_as_slice, buffer_bytes, buffer_len, buffer_max_len,
    buffer_put_slice, buffer_put_u32_le, buffer_reserve, buffer_split_to, lemma_u32_le_roundtrip,
    u32_from_le, u32_le_bytes,
};
use crate::error::CodecError;

verus! {

/// Default maximum frame size (16 MB).
pub const DEFAULT_MAX_FRAME_SIZE: usize = 16777216;

/// What the start of a byte sequence holds, read as a frame.
pub enum FrameStatus {
    /// Fewer bytes than the length prefix, or than the frame it announces.
    NeedMore,
    /// The prefix announces a payload larger than allowed (its length).
    TooLarge(nat),
    /// A whole frame with a payload of the given length.
    Ready(nat),
}

/// The payload length that the first four bytes announce.
pub open spec fn declared_len(s: Seq<u8>) -> nat
    recommends
        s.len() >= 4,
{
    u32_from_le(s[0], s[1], s[2], s[3])
}

/// How a codec with the given maximum reads the start of `s`.
pub open spec fn frame_status(max: usize, s: Seq<u8>) -> FrameStatus {
    if s.len() < 4 {
        FrameStatus::NeedMore
    } else if declared_len(s) > max {
        FrameStatus::TooLarge(declared_len(s))
    } else if s.len() < 4 + declared_len(s) {
        FrameStatus::NeedMore
    } else {
        FrameStatus::Ready(declared_len(s))
    }
}

/// The payload of the frame at the start of `s`, whose length is `n`.
pub open spec fn frame_payload(s: Seq<u8>, n: nat) -> Seq<u8> {
    s.subrange(4, 4 + n as int)
}

/// The bytes of the frame that carries `payload`: the length, cut to 32 bits
/// as the encoder writes it, then the payload.
pub open spec fn frame_bytes(payload: Seq<u8>) -> Seq<u8> {
    u32_le_bytes(payload.len() as u32) + payload
}

/// Whether decoding `s` stays within the machine's limits: the payload that
/// is copied out fits in an `AlignedVec`, and the room reserved for an
/// incomplete frame fits in a `BytesMut`.
pub open spec fn decode_fits(max: usize, s: Seq<u8>) -> bool {
    match frame_status(max, s) {
        FrameStatus::Ready(n) => n <= aligned_max_capacity(),
        FrameStatus::NeedMore => s.len() >= 4 ==> 4 + declared_len(s) <= buffer_max_len(),
        FrameStatus::TooLarge(_) => true,
    }
}

/// Whether decoding a frame out of `s` in place stays within the machine's
/// limits: the payload that is copied out fits in an `AlignedVec`.
pub open spec fn slice_decode_fits(max: usize, s: Seq<u8>) -> bool {
    frame_status(max, s) matches FrameStatus::Ready(n) ==> n <= aligned_max_capacity()
}

/// Length-prefixed frame codec.
#[derive(Debug, Clone)]
pub struct NimbusCodec {
    max_frame_size: usize,
}

impl NimbusCodec {
    /// The largest payload this codec accepts.
    pub closed spec fn spec_max_frame_size(&self) -> usize {
        self.max_frame_size
    }

    /// Create a new codec with default settings.
    pub fn new() -> (r: Self)
        ensures
            r.spec_max_frame_size() == DEFAULT_MAX_FRAME_SIZE,
    {
        NimbusCodec { max_frame_size: DEFAULT_MAX_FRAME_SIZE }
    }

    /// Create a codec with a custom maximum frame size.
    pub fn with_max_frame_size(max_frame_size: usize) -> (r: Self)
        ensures
            r.spec_max_frame_size() == max_frame_size,
    {
        NimbusCodec { max_frame_size }
    }

    /// Get the maximum frame size.
    pub fn max_frame_size(&self) -> (r: usize)
        ensures
            r == self.spec_max_frame_size(),
    {
        self.max_frame_size
    }

    /// Whether decoding `src` stays within the machine's limits (see
    /// `decode_fits`); beyond them the buffers that decoding grows would
    /// overflow their allocation.
    pub fn fits_limits(&self, src: &[u8]) -> (r: bool)
        ensures
            r == decode_fits(self.spec_max_frame_size(), src@),
    {
        if src.len() < 4 {
            return true;
        }
        let len = Self::read_len(src);
        if len > self.max_frame_size {
            true
        } else if src.len() - 4 < len {
            len <= (isize::MAX as usize) - 4096 - 4
        } else {
            len <= (isize::MAX as usize) - 15
        }
    }

    /// Whether decoding a frame out of `src` in place stays within the
    /// machine's limits (see `slice_decode_fits`); beyond them the payload
    /// would not fit in an `AlignedVec`.
    pub fn slice_fits_limits(&self, src: &[u8]) -> (r: bool)
        ensures
            r == slice_decode_fits(self.spec_max_frame_size(), src@),
    {
        if src.len() < 4 {
            return true;
        }
        let len = Self::read_len(src);
        if len > self.max_frame_size || src.len() - 4 < len {
            true
        } else {
            len <= (isize::MAX as usize) - 15
        }
    }

    /// Whether decoding from the buffer `src` stays within the machine's
    /// limits (see `decode_fits`): the condition `decode` asks of its buffer.
    pub fn buffer_fits_limits(&self, src: &BytesMut) -> (r: bool)
        ensures
            r == decode_fits(self.spec_max_frame_size(), buffer_bytes(*src)),
    {
        self.fits_limits(buffer_as_slice(src))
    }

    /// Whether the buffer `dst` has room for a frame carrying `payload` bytes
    /// without growing past what a `BytesMut` can hold: the condition the
    /// encoders ask of their buffer.
    pub fn buffer_has_room(dst: &BytesMut, payload: usize) -> (r: bool)
        ensures
            r == (buffer_bytes(*dst).len() + 4 + payload <= buffer_max_len()),
    {
        room_for_frame(buffer_len(dst), payload)
    }

    /// The payload length announced by the first four bytes of `src`.
    fn read_len(src: &[u8]) -> (r: usize)
        requires
            src@.len() >= 4,
        ensures
            r == declared_len(src@),
    {
        let len: u32 = src[0] as u32 + (src[1] as u32) * 256 + (src[2] as u32) * 65536 + (src[3] as u32)
            * 16777216;
        len as usize
    }

    /// Decode a frame from the start of `src`, leaving `src` as it is.
    ///
    /// Returns `Ok(Some((payload, consumed)))` for a whole frame, `Ok(None)`
    /// when more bytes are needed, and `FrameTooLarge` when the announced
    /// payload is larger than the maximum.
    pub fn decode_slice(&self, src: &[u8]) -> (r: Result<Option<(AlignedVec, usize)>, CodecError>)
        requires
            slice_decode_fits(self.spec_max_frame_size(), src@),
        ensures
            match frame_status(self.spec_max_frame_size(), src@) {
                FrameStatus::NeedMore => r matches Ok(None),
                FrameStatus::TooLarge(n) => r matches Err(CodecError::FrameTooLarge { size, max })
                    && size == n && max == self.spec_max_frame_size(),
                FrameStatus::Ready(n) => r matches Ok(Some((v, c))) && c == 4 + n && aligned_bytes(v)
                    == frame_payload(src@, n),
            },
    {
        if src.len() < 4 {
            return Ok(None);
        }
        let len = Self::read_len(src);
        if len > self.max_frame_size {
            return Err(CodecError::FrameTooLarge { size: len, max: self.max_frame_size });
        }
        if src.len() - 4 < len {
            return Ok(None);
        }
        let total_len = 4 + len;
        let mut aligned = aligned_with_capacity(len);
        aligned_extend_from_slice(&mut aligned, &src[4..total_len]);
        Ok(Some((aligned, total_len)))
    }

    /// Decode a frame from the start of `src`, removing it from `src`.
    ///
    /// Returns `Ok(Some(payload))` for a whole frame and `Ok(None)` when more
    /// bytes are needed (after reserving room for the rest of the frame), and
    /// `FrameTooLarge` when the announced payload is larger than the maximum;
    /// `src` keeps its bytes in the last two cases.
    pub fn decode(&self, src: &mut BytesMut) -> (r: Result<Option<AlignedVec>, CodecError>)
        requires
            decode_fits(self.spec_max_frame_size(), buffer_bytes(*old(src))),
        ensures
            match frame_status(self.spec_max_frame_size(), buffer_bytes(*old(src))) {
                FrameStatus::NeedMore => r matches Ok(None) && buffer_bytes(*final(src))
                    == buffer_bytes(*old(src)),
                FrameStatus::TooLarge(n) => r matches Err(CodecError::FrameTooLarge { size, max })
                    && size == n && max == self.spec_max_frame_size() && buffer_bytes(*final(src))
                    == buffer_bytes(*old(src)),
                FrameStatus::Ready(n) => r matches Ok(Some(v)) && aligned_bytes(v) == frame_payload(
                    buffer_bytes(*old(src)),
                    n,
                ) && buffer_bytes(*final(src)) == buffer_bytes(*old(src)).skip(4 + n as int),
            },
    {
        let available = buffer_len(src);
        if available < 4 {
            return Ok(None);
        }
        let len = Self::read_len(buffer_as_slice(src));
        if len > self.max_frame_size {
            return Err(CodecError::FrameTooLarge { size: len, max: self.max_frame_size });
        }
        if available - 4 < len {
            let total_len = 4 + len;
            buffer_reserve(src, total_len - available);
            return Ok(None);
        }
        let ghost before = buffer_bytes(*src);
        buffer_advance(src, 4);
        let data = buffer_split_to(src, len);
        let mut aligned = aligned_with_capacity(len);
        aligned_extend_from_slice(&mut aligned, buffer_as_slice(&data));
        proof {
            assert(before.skip(4).take(len as int) =~= frame_payload(before, len as nat));
            assert(before.skip(4).skip(len as int) =~= before.skip(4 + len));
        }
        Ok(Some(aligned))
    }

    /// Encode a byte slice as one frame at the end of `dst`.
    ///
    /// Fails with `FrameTooLarge`, leaving `dst` as it is, when the slice is
    /// longer than the maximum.
    pub fn encode_slice(&self, item: &[u8], dst: &mut BytesMut) -> (r: Result<(), CodecError>)
        requires
            item@.len() <= self.spec_max_frame_size() ==> buffer_bytes(*old(dst)).len() + 4
                + item@.len() <= buffer_max_len(),
        ensures
            item@.len() <= self.spec_max_frame_size() ==> r is Ok && buffer_bytes(*final(dst))
                == buffer_bytes(*old(dst)) + frame_bytes(item@),
            item@.len() > self.spec_max_frame_size() ==> (r matches Err(
                CodecError::FrameTooLarge { size, max },
            ) && size == item@.len() && max == self.spec_max_frame_size()),
            item@.len() > self.spec_max_frame_size() ==> buffer_bytes(*final(dst)) == buffer_bytes(
                *old(dst),
            ),
    {
        let len = item.len();
        if len > self.max_frame_size {
            return Err(CodecError::FrameTooLarge { size: len, max: self.max_frame_size });
        }
        buffer_reserve(dst, 4 + len);
        buffer_put_u32_le(dst, len as u32);
        buffer_put_slice(dst, item);
        proof {
            assert(buffer_bytes(*dst) =~= buffer_bytes(*old(dst)) + frame_bytes(item@));
        }
        Ok(())
    }

    /// Encode an owned payload as one frame at the end of `dst`.
    pub fn encode(&self, item: Vec<u8>, dst: &mut BytesMut) -> (r: Result<(), CodecError>)
        requires
            item@.len() <= self.spec_max_frame_size() ==> buffer_bytes(*old(dst)).len() + 4
                + item@.len() <= buffer_max_len(),
        ensures
            item@.len() <= self.spec_max_frame_size() ==> r is Ok && buffer_bytes(*final(dst))
                == buffer_bytes(*old(dst)) + frame_bytes(item@),
            item@.len() > self.spec_max_frame_size() ==> (r matches Err(
                CodecError::FrameTooLarge { size, max },
            ) && size == item@.len() && max == self.spec_max_frame_size()),
            item@.len() > self.spec_max_frame_size() ==> buffer_bytes(*final(dst)) == buffer_bytes(
                *old(dst),
            ),
    {
        self.encode_slice(item.as_slice(), dst)
    }

    /// Encode an aligned vector as one frame at the end of `dst`.
    pub fn encode_aligned(&self, item: &AlignedVec, dst: &mut BytesMut) -> (r: Result<(), CodecError>)
        requires
            aligned_bytes(*item).len() <= self.spec_max_frame_size() ==> buffer_bytes(*old(dst)).len()
                + 4 + aligned_bytes(*item).len() <= buffer_max_len(),
        ensures
            aligned_bytes(*item).len() <= self.spec_max_frame_size() ==> r is Ok && buffer_bytes(
                *final(dst),
            ) == buffer_bytes(*old(dst)) + frame_bytes(aligned_bytes(*item)),
            aligned_bytes(*item).len() > self.spec_max_frame_size() ==> (r matches Err(
                CodecError::FrameTooLarge { size, max },
            ) && size == aligned_bytes(*item).len() && max == self.spec_max_frame_size()),
            aligned_bytes(*item).len() > self.spec_max_frame_size() ==> buffer_bytes(*final(dst))
                == buffer_bytes(*old(dst)),
    {
        self.encode_slice(aligned_as_slice(item), dst)
    }
}

/// Whether a buffer holding `buffered` bytes has room for a frame carrying
/// `payload` bytes without growing past what a `BytesMut` can hold.
pub fn room_for_frame(buffered: usize, payload: usize) -> (r: bool)
    ensures
        r == (buffered + 4 + payload <= buffer_max_len()),
{
    let limit: usize = (isize::MAX as usize) - 4096;
    buffered <= limit && payload <= limit - buffered && 4 <= limit - buffered - payload
}

impl Default for NimbusCodec {
    fn default() -> (r: Self)
        ensures
            r.spec_max_frame_size() == DEFAULT_MAX_FRAME_SIZE,
    {
        Self::new()
    }
}

/// A frame read back gives the payload written, whatever bytes follow it:
/// the decoder reports a whole frame of the payload's length, the payload
/// is the bytes after the prefix, and what follows the frame is left.
pub proof fn lemma_frame_roundtrip(max: usize, payload: Seq<u8>, rest: Seq<u8>)
    requires
        payload.len() <= max,
        payload.len() <= u32::MAX,
    ensures
        frame_status(max, frame_bytes(payload) + rest) == FrameStatus::Ready(payload.len()),
        frame_payload(frame_bytes(payload) + rest, payload.len()) == payload,
        (frame_bytes(payload) + rest).skip(4 + payload.len() as int) == rest,
{
    let n = payload.len() as u32;
    lemma_u32_le_roundtrip(n);
    let s = frame_bytes(payload) + rest;
    assert(s[0] == u32_le_bytes(n)[0]);
    assert(s[1] == u32_le_bytes(n)[1]);
    assert(s[2] == u32_le_bytes(n)[2]);
    assert(s[3] == u32_le_bytes(n)[3]);
    assert(declared_len(s) == payload.len());
    assert(frame_payload(s, payload.len()) =~= payload);
    assert(s.skip(4 + payload.len() as int) =~= rest);
}

/// Any strict prefix of a frame that the decoder accepts is incomplete:
/// a partial frame is never mistaken for a whole one or for an error.
pub proof fn lemma_partial_frame_needs_more(max: usize, payload: Seq<u8>, k: int)
    requires
        payload.len() <= max,
        payload.len() <= u32::MAX,
        0 <= k < frame_bytes(payload).len(),
    ensures
        frame_status(max, frame_bytes(payload).take(k)) == FrameStatus::NeedMore,
{
    let n = payload.len() as u32;
    lemma_u32_le_roundtrip(n);
    let s = frame_bytes(payload).take(k);
    if k >= 4 {
        assert(s[0] == u32_le_bytes(n)[0]);
        assert(s[1] == u32_le_bytes(n)[1]);
        assert(s[2] == u32_le_bytes(n)[2]);
        assert(s[3] == u32_le_bytes(n)[3]);
        assert(declared_len(s) == payload.len());
    }
}

/// The decoder rejects exactly the frames the encoder refuses to write: a
/// frame whose payload is longer than the maximum is reported too large,
/// with the payload's length, whatever follows it.
pub proof fn lemma_oversized_frame_rejected(max: usize, payload: Seq<u8>, rest: Seq<u8>)
    requires
        payload.len() > max,
        payload.len() <= u32::MAX,
    ensures
        frame_status(max, frame_bytes(payload) + rest) == FrameStatus::TooLarge(payload.len()),
{
    let n = payload.len() as u32;
    lemma_u32_le_roundtrip(n);
    let s = frame_bytes(payload) + rest;
    assert(s[0] == u32_le_bytes(n)[0]);
    assert(s[1] == u32_le_bytes(n)[1]);
    assert(s[2] == u32_le_bytes(n)[2]);
    assert(s[3] == u32_le_bytes(n)[3]);
}

/// The decoder looks no further than the frame: extending a buffer that
/// holds a whole frame does not change the frame read from it.
pub proof fn lemma_decode_ignores_trailing(max: usize, s: Seq<u8>, more: Seq<u8>)
    requires
        frame_status(max, s) is Ready,
    ensures
        frame_status(max, s + more) == frame_status(max, s),
        frame_payload(s + more, frame_status(max, s)->Ready_0) == frame_payload(
            s,
            frame_status(max, s)->Ready_0,
        ),
{
    let t = s + more;
    assert(t[0] == s[0] && t[1] == s[1] && t[2] == s[2] && t[3] == s[3]);
    let n = frame_status(max, s)->Ready_0;
    assert(frame_payload(t, n) =~= frame_payload(s, n));
}

} // verus!
