//! The byte buffers of the `bytes` crate, as this library uses them.
//!
//! `BytesMut` is the growable buffer of pending input that the caller fills
//! and the decoder drains from the front; `Bytes` is the frozen payload span
//! handed out with a record. Both are opaque to Verus: what they hold is named
//! by `pending_of` and `payload_of`, and every operation used here has a
//! wrapper whose contract speaks over those names.
use vstd::prelude::*;

use bytes::{Buf, Bytes, BytesMut};

verus! {

#[verifier::external_type_specification]
#[verifier::external_body]
pub struct ExBytesMut(BytesMut);

#[verifier::external_type_specification]
#[verifier::external_body]
pub struct ExBytes(Bytes);

/// The bytes that a `BytesMut` holds, in order.
pub uninterp spec fn pending_of(b: BytesMut) -> Seq<u8>;

/// The bytes that a `Bytes` holds, in order.
pub uninterp spec fn payload_of(b: Bytes) -> Seq<u8>;

/// Big-endian value of four bytes.
pub open spec fn be_u32(b0: u8, b1: u8, b2: u8, b3: u8) -> int {
    b0 * 0x1000000int + b1 * 0x10000int + b2 * 0x100int + b3
}

/// Relies on `BytesMut`'s `Deref<Target = [u8]>`: the slice is the buffer's
/// contents.
#[verifier::external_body]
pub(crate) fn as_slice(b: &BytesMut) -> (r: &[u8])
    ensures
        r@ == pending_of(*b),
{
    b
}

/// Relies on `Buf::get_u32` for `BytesMut`: reads the first four bytes in
/// big-endian order and advances past them.
#[verifier::external_body]
pub(crate) fn take_u32(b: &mut BytesMut) -> (r: u32)
    requires
        pending_of(*old(b)).len() >= 4,
    ensures
        r as int == be_u32(
            pending_of(*old(b))[0],
            pending_of(*old(b))[1],
            pending_of(*old(b))[2],
            pending_of(*old(b))[3],
        ),
        pending_of(*final(b)) == pending_of(*old(b)).skip(4),
{
    b.get_u32()
}

/// Relies on `Buf::advance` for `BytesMut`: drops the first `n` bytes (it
/// panics past the end, which `requires` rules out).
#[verifier::external_body]
pub(crate) fn advance(b: &mut BytesMut, n: usize)
    requires
        n <= pending_of(*old(b)).len(),
    ensures
        pending_of(*final(b)) == pending_of(*old(b)).skip(n as int),
{
    b.advance(n)
}

/// Relies on `BytesMut::split_to`: the result holds the first `n` bytes and
/// the buffer keeps the rest (it panics past the end, which `requires` rules
/// out).
#[verifier::external_body]
pub(crate) fn split_to(b: &mut BytesMut, n: usize) -> (r: BytesMut)
    requires
        n <= pending_of(*old(b)).len(),
    ensures
        pending_of(r) == pending_of(*old(b)).take(n as int),
        pending_of(*final(b)) == pending_of(*old(b)).skip(n as int),
{
    b.split_to(n)
}

/// Relies on `BytesMut::freeze`: the immutable span holds the same bytes.
#[verifier::external_body]
pub(crate) fn freeze(b: BytesMut) -> (r: Bytes)
    ensures
        payload_of(r) == pending_of(b),
{
    b.freeze()
}

} // verus!
