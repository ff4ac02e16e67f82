//! Byte buffers borrowed from `rkyv` and `ntex-bytes`.
//!
//! Both types are opaque to Verus; each is given a name for the bytes it
//! holds, and every method the library calls has a contract over that name.
use vstd::prelude::*;
use rkyv::util::AlignedVec;
use ntex_bytes::{Buf, BufMut, BytesMut};

verus! {

#[verifier::external_type_specification]
#[verifier::external_body]
pub struct ExAlignedVec<const ALIGNMENT: usize>(rkyv::util::AlignedVec<ALIGNMENT>);

#[verifier::external_type_specification]
#[verifier::external_body]
pub struct ExBytesMut(ntex_bytes::BytesMut);

/// The bytes held by an `rkyv::util::AlignedVec` (16-byte aligned).
pub uninterp spec fn aligned_bytes(v: AlignedVec) -> Seq<u8>;

/// The capacity an `AlignedVec` holds without growing (`AlignedVec::capacity`):
/// exactly what `with_capacity` was given, kept by `clear`.
pub uninterp spec fn aligned_capacity(v: AlignedVec) -> nat;

/// The bytes held by an `ntex_bytes::BytesMut`.
pub uninterp spec fn buffer_bytes(b: BytesMut) -> Seq<u8>;

/// `AlignedVec::MAX_CAPACITY` for the default alignment of 16:
/// `isize::MAX - 15`. Growing past it panics.
pub open spec fn aligned_max_capacity() -> int {
    isize::MAX as int - 15
}

/// A bound on how long a `BytesMut` may grow: `reserve` allocates a vector of
/// the new length plus a small header, and panics past `isize::MAX`.
pub open spec fn buffer_max_len() -> int {
    isize::MAX as int - 4096
}

/// `AlignedVec::with_capacity`: an empty vector; panics past `MAX_CAPACITY`.
#[verifier::external_body]
pub(crate) fn aligned_with_capacity(capacity: usize) -> (r: AlignedVec)
    requires
        capacity <= aligned_max_capacity(),
    ensures
        aligned_bytes(r) == Seq::<u8>::empty(),
        aligned_capacity(r) == capacity,
{
    AlignedVec::with_capacity(capacity)
}

/// `AlignedVec::capacity`.
#[verifier::external_body]
pub(crate) fn aligned_capacity_of(v: &AlignedVec) -> (r: usize)
    ensures
        r == aligned_capacity(*v),
{
    v.capacity()
}

/// `AlignedVec::clear`: removes every byte and keeps the capacity.
#[verifier::external_body]
pub(crate) fn aligned_clear(v: &mut AlignedVec)
    ensures
        aligned_bytes(*final(v)) == Seq::<u8>::empty(),
        aligned_capacity(*final(v)) == aligned_capacity(*old(v)),
{
    v.clear()
}

/// `AlignedVec::extend_from_slice`: appends the slice in order; panics when
/// the new length exceeds `MAX_CAPACITY`.
#[verifier::external_body]
pub(crate) fn aligned_extend_from_slice(v: &mut AlignedVec, other: &[u8])
    requires
        aligned_bytes(*old(v)).len() + other@.len() <= aligned_max_capacity(),
    ensures
        aligned_bytes(*final(v)) == aligned_bytes(*old(v)) + other@,
{
    v.extend_from_slice(other)
}

/// `AlignedVec::as_slice`: the bytes held, as a slice.
#[verifier::external_body]
pub(crate) fn aligned_as_slice(v: &AlignedVec) -> (r: &[u8])
    ensures
        r@ == aligned_bytes(*v),
{
    v.as_slice()
}

/// `BytesMut::with_capacity`: an empty buffer with room for `capacity`
/// bytes; the allocation panics past `isize::MAX`.
#[verifier::external_body]
pub(crate) fn buffer_with_capacity(capacity: usize) -> (r: BytesMut)
    requires
        capacity <= buffer_max_len(),
    ensures
        buffer_bytes(r) == Seq::<u8>::empty(),
{
    BytesMut::with_capacity(capacity)
}

/// `BytesMut::len`.
#[verifier::external_body]
pub(crate) fn buffer_len(b: &BytesMut) -> (r: usize)
    ensures
        r == buffer_bytes(*b).len(),
{
    b.len()
}

/// `<BytesMut as AsRef<[u8]>>::as_ref`: the bytes held, as a slice.
#[verifier::external_body]
pub(crate) fn buffer_as_slice(b: &BytesMut) -> (r: &[u8])
    ensures
        r@ == buffer_bytes(*b),
{
    b.as_ref()
}

/// `BytesMut::reserve`: makes room for more bytes and leaves the contents
/// as they are; panics when the new capacity overflows.
#[verifier::external_body]
pub(crate) fn buffer_reserve(b: &mut BytesMut, additional: usize)
    requires
        buffer_bytes(*old(b)).len() + additional <= buffer_max_len(),
    ensures
        buffer_bytes(*final(b)) == buffer_bytes(*old(b)),
{
    b.reserve(additional)
}

/// `<BytesMut as Buf>::advance`: drops the first `count` bytes; panics when
/// `count` exceeds the length.
#[verifier::external_body]
pub(crate) fn buffer_advance(b: &mut BytesMut, count: usize)
    requires
        count <= buffer_bytes(*old(b)).len(),
    ensures
        buffer_bytes(*final(b)) == buffer_bytes(*old(b)).skip(count as int),
{
    Buf::advance(b, count)
}

/// `BytesMut::split_to`: returns the first `at` bytes and keeps the rest;
/// panics when `at` exceeds the length.
#[verifier::external_body]
pub(crate) fn buffer_split_to(b: &mut BytesMut, at: usize) -> (r: BytesMut)
    requires
        at <= buffer_bytes(*old(b)).len(),
    ensures
        buffer_bytes(r) == buffer_bytes(*old(b)).take(at as int),
        buffer_bytes(*final(b)) == buffer_bytes(*old(b)).skip(at as int),
{
    b.split_to(at)
}

/// `<BytesMut as BufMut>::put_u32_le`: appends the four little-endian bytes
/// of `n` (it reserves room first, so it only panics on overflow).
#[verifier::external_body]
pub(crate) fn buffer_put_u32_le(b: &mut BytesMut, n: u32)
    requires
        buffer_bytes(*old(b)).len() + 4 <= buffer_max_len(),
    ensures
        buffer_bytes(*final(b)) == buffer_bytes(*old(b)) + u32_le_bytes(n),
{
    BufMut::put_u32_le(b, n)
}

/// `<BytesMut as BufMut>::put_slice`: appends the slice (it reserves room
/// first, so it only panics on overflow).
#[verifier::external_body]
pub(crate) fn buffer_put_slice(b: &mut BytesMut, src: &[u8])
    requires
        buffer_bytes(*old(b)).len() + src@.len() <= buffer_max_len(),
    ensures
        buffer_bytes(*final(b)) == buffer_bytes(*old(b)) + src@,
{
    BufMut::put_slice(b, src)
}

/// The four little-endian bytes of `n`.
pub open spec fn u32_le_bytes(n: u32) -> Seq<u8> {
    seq![
        (n % 256) as u8,
        ((n / 256) % 256) as u8,
        ((n / 65536) % 256) as u8,
        (n / 16777216) as u8,
    ]
}

/// The number whose little-endian bytes are `b0 b1 b2 b3`.
pub open spec fn u32_from_le(b0: u8, b1: u8, b2: u8, b3: u8) -> nat {
    (b0 + 256 * b1 + 65536 * b2 + 16777216 * b3) as nat
}

/// Reading back the bytes that `u32_le_bytes` writes gives the number.
pub proof fn lemma_u32_le_roundtrip(n: u32)
    ensures
        ({
            let b = u32_le_bytes(n);
            u32_from_le(b[0], b[1], b[2], b[3]) == n
        }),
{
    let b = u32_le_bytes(n);
    assert(b[0] == n % 256);
    assert(b[1] == (n / 256) % 256);
    assert(b[2] == (n / 65536) % 256);
    assert(b[3] == n / 16777216);
    assert(n as int == n % 256 + 256 * ((n / 256) % 256) + 65536 * ((n / 65536) % 256)
        + 16777216 * (n / 16777216)) by (nonlinear_arith);
}

} // verus!
