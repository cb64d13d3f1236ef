//! Big-endian integers on the wire, and the byte buffer that frames are
//! assembled in.

use bytes::{Buf, BufMut, BytesMut};
use vstd::prelude::*;

verus! {

/// The two bytes of `n`, most significant first.
pub open spec fn be_u16(n: u16) -> Seq<u8> {
    seq![(n / 256) as u8, (n % 256) as u8]
}

/// The four bytes of `n`, most significant first.
pub open spec fn be_u32(n: u32) -> Seq<u8> {
    seq![
        (n / 0x100_0000) as u8,
        (n / 0x1_0000 % 256) as u8,
        (n / 0x100 % 256) as u8,
        (n % 256) as u8,
    ]
}

/// The number that the first two bytes of `s` spell, most significant first.
pub open spec fn be_u16_value(s: Seq<u8>) -> int
    recommends
        s.len() >= 2,
{
    s[0] as int * 256 + s[1] as int
}

/// The number that the first four bytes of `s` spell, most significant first.
pub open spec fn be_u32_value(s: Seq<u8>) -> int
    recommends
        s.len() >= 4,
{
    s[0] as int * 0x100_0000 + s[1] as int * 0x1_0000 + s[2] as int * 0x100 + s[3] as int
}

/// Reading back what `be_u16` wrote gives the number written.
pub proof fn lemma_be_u16_value(n: u16)
    ensures
        be_u16(n).len() == 2,
        be_u16_value(be_u16(n)) == n,
{
}

/// Reading back what `be_u32` wrote gives the number written.
pub proof fn lemma_be_u32_value(n: u32)
    ensures
        be_u32(n).len() == 4,
        be_u32_value(be_u32(n)) == n,
{
}

/// Two bytes are the big-endian form of the number they spell.
pub proof fn lemma_be_u16_of_value(s: Seq<u8>)
    requires
        s.len() == 2,
    ensures
        0 <= be_u16_value(s) <= u16::MAX,
        be_u16(be_u16_value(s) as u16) == s,
{
    assert(be_u16(be_u16_value(s) as u16) =~= s);
}

/// Four bytes are the big-endian form of the number they spell.
pub proof fn lemma_be_u32_of_value(s: Seq<u8>)
    requires
        s.len() == 4,
    ensures
        0 <= be_u32_value(s) <= u32::MAX,
        be_u32(be_u32_value(s) as u32) == s,
{
    assert(be_u32(be_u32_value(s) as u32) =~= s);
}

/// `bytes::BytesMut`: a growable buffer of bytes. What it holds is
/// `buffer_bytes`.
#[verifier::external_type_specification]
#[verifier::external_body]
pub struct ExBytesMut(BytesMut);

/// The bytes that a buffer holds, first written first.
pub uninterp spec fn buffer_bytes(buf: BytesMut) -> Seq<u8>;

/// `BytesMut::with_capacity`: a buffer that holds no bytes yet. It panics on
/// a capacity that no allocation can have.
#[verifier::external_body]
pub(crate) fn buffer_with_capacity(capacity: usize) -> (buf: BytesMut)
    requires
        capacity <= isize::MAX,
    ensures
        buffer_bytes(buf) == Seq::<u8>::empty(),
{
    BytesMut::with_capacity(capacity)
}

/// `BufMut::put_u8` on a `BytesMut`: the byte is appended; the buffer grows
/// as needed.
#[verifier::external_body]
pub(crate) fn buffer_put_u8(buf: &mut BytesMut, n: u8)
    requires
        buffer_bytes(*old(buf)).len() + 1 <= isize::MAX,
    ensures
        buffer_bytes(*final(buf)) == buffer_bytes(*old(buf)).push(n),
{
    buf.put_u8(n)
}

/// `BufMut::put_u16` on a `BytesMut`: the two bytes of `n` are appended in
/// big-endian order.
#[verifier::external_body]
pub(crate) fn buffer_put_u16(buf: &mut BytesMut, n: u16)
    requires
        buffer_bytes(*old(buf)).len() + 2 <= isize::MAX,
    ensures
        buffer_bytes(*final(buf)) == buffer_bytes(*old(buf)) + be_u16(n),
{
    buf.put_u16(n)
}

/// `BufMut::put_u32` on a `BytesMut`: the four bytes of `n` are appended in
/// big-endian order.
#[verifier::external_body]
pub(crate) fn buffer_put_u32(buf: &mut BytesMut, n: u32)
    requires
        buffer_bytes(*old(buf)).len() + 4 <= isize::MAX,
    ensures
        buffer_bytes(*final(buf)) == buffer_bytes(*old(buf)) + be_u32(n),
{
    buf.put_u32(n)
}

/// `BufMut::put_slice` on a `BytesMut`: the bytes of `src` are appended in
/// their order.
#[verifier::external_body]
pub(crate) fn buffer_put_slice(buf: &mut BytesMut, src: &[u8])
    requires
        buffer_bytes(*old(buf)).len() + src@.len() <= isize::MAX,
    ensures
        buffer_bytes(*final(buf)) == buffer_bytes(*old(buf)) + src@,
{
    buf.put_slice(src)
}

/// `Buf::bytes` on a `BytesMut`: the bytes that the buffer holds, as a slice.
#[verifier::external_body]
pub(crate) fn buffer_as_slice(buf: &BytesMut) -> (bytes: &[u8])
    ensures
        bytes@ == buffer_bytes(*buf),
{
    Buf::bytes(buf)
}

/// `Buf::get_u16` on a byte slice: the number that its first two bytes spell
/// in big-endian order. It panics on a slice of fewer than two bytes.
#[verifier::external_body]
pub(crate) fn slice_get_u16(bytes: &[u8]) -> (n: u16)
    requires
        bytes@.len() >= 2,
    ensures
        n == be_u16_value(bytes@),
{
    let mut cursor = bytes;
    cursor.get_u16()
}

/// `Buf::get_u32` on a byte slice: the number that its first four bytes spell
/// in big-endian order. It panics on a slice of fewer than four bytes.
#[verifier::external_body]
pub(crate) fn slice_get_u32(bytes: &[u8]) -> (n: u32)
    requires
        bytes@.len() >= 4,
    ensures
        n == be_u32_value(bytes@),
{
    let mut cursor = bytes;
    cursor.get_u32()
}

} // verus!
