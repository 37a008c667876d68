//! The byte cursor: a `bytes::BytesMut` read from the front, with the
//! contracts of the few `bytes` operations that the decoder relies on.

use bytes::Buf;
use bytes::BytesMut;
use vstd::prelude::*;

verus! {

#[verifier::external_type_specification]
#[verifier::external_body]
pub struct ExBytesMut(BytesMut);

/// The bytes that a buffer still holds, front first.
pub uninterp spec fn buffer_contents(b: BytesMut) -> Seq<u8>;

/// What `String::from_utf8_lossy` makes of a byte sequence.
pub uninterp spec fn utf8_lossy(b: Seq<u8>) -> Seq<char>;

/// Big-endian value of two bytes.
pub open spec fn be16(a: u8, b: u8) -> int {
    a as int * 0x100 + b as int
}

/// Big-endian value of four bytes.
pub open spec fn be32(a: u8, b: u8, c: u8, d: u8) -> int {
    a as int * 0x100_0000 + b as int * 0x1_0000 + c as int * 0x100 + d as int
}

/// Relies on `impl From<&[u8]> for BytesMut`: the buffer holds a copy of the slice.
#[verifier::external_body]
pub(crate) fn buffer_from_slice(data: &[u8]) -> (r: BytesMut)
    ensures
        buffer_contents(r) == data@,
{
    BytesMut::from(data)
}

/// Relies on `Buf::remaining` of `BytesMut`: the number of bytes left.
#[verifier::external_body]
pub(crate) fn buffer_remaining(b: &BytesMut) -> (r: usize)
    ensures
        r == buffer_contents(*b).len(),
{
    b.remaining()
}

/// Relies on `Buf::chunk` of `BytesMut`: all remaining bytes as one slice,
/// of which the first is returned without advancing.
#[verifier::external_body]
pub(crate) fn buffer_peek_u8(b: &BytesMut) -> (r: u8)
    requires
        buffer_contents(*b).len() >= 1,
    ensures
        r == buffer_contents(*b)[0],
{
    b.chunk()[0]
}

/// Relies on `Buf::get_u8`: returns the first byte and advances past it.
#[verifier::external_body]
pub(crate) fn buffer_get_u8(b: &mut BytesMut) -> (r: u8)
    requires
        buffer_contents(*old(b)).len() >= 1,
    ensures
        r == buffer_contents(*old(b))[0],
        buffer_contents(*final(b)) == buffer_contents(*old(b)).drop_first(),
{
    b.get_u8()
}

/// Relies on `Buf::get_u16`: the first two bytes read big-endian, then skipped.
#[verifier::external_body]
pub(crate) fn buffer_get_u16(b: &mut BytesMut) -> (r: u16)
    requires
        buffer_contents(*old(b)).len() >= 2,
    ensures
        r as int == be16(buffer_contents(*old(b))[0], buffer_contents(*old(b))[1]),
        buffer_contents(*final(b)) == buffer_contents(*old(b)).skip(2),
{
    b.get_u16()
}

/// Relies on `Buf::get_u32`: the first four bytes read big-endian, then skipped.
#[verifier::external_body]
pub(crate) fn buffer_get_u32(b: &mut BytesMut) -> (r: u32)
    requires
        buffer_contents(*old(b)).len() >= 4,
    ensures
        r as int == be32(
            buffer_contents(*old(b))[0],
            buffer_contents(*old(b))[1],
            buffer_contents(*old(b))[2],
            buffer_contents(*old(b))[3],
        ),
        buffer_contents(*final(b)) == buffer_contents(*old(b)).skip(4),
{
    b.get_u32()
}

/// Relies on `String::from_utf8_lossy`: the bytes as text, with each invalid
/// sequence replaced; the result depends on the bytes alone.
#[verifier::external_body]
pub(crate) fn lossy_text(b: &[u8]) -> (r: String)
    ensures
        r@ == utf8_lossy(b@),
{
    String::from_utf8_lossy(b).into_owned()
}

} // verus!
