//! The fixed header of 32 bytes that every frame begins with.
//!
//! | bytes  | field                                    |
//! |--------|------------------------------------------|
//! | 0..2   | magic, `21 31`                           |
//! | 2..4   | length of the whole frame, header and all|
//! | 4..8   | reserved                                 |
//! | 8..12  | device identifier                        |
//! | 12..16 | stamp; zero before the handshake         |
//! | 16..32 | checksum                                 |
//!
//! All numbers are big-endian.

use crate::buffer::{
    be_u16, be_u16_value, be_u32, be_u32_value, buffer_as_slice, buffer_bytes, buffer_put_slice,
    buffer_put_u16, buffer_put_u32, buffer_with_capacity, lemma_be_u16_of_value,
    lemma_be_u16_value, lemma_be_u32_of_value, lemma_be_u32_value, slice_get_u16, slice_get_u32,
};
use vstd::prelude::*;
use vstd::slice::{slice_subrange, slice_to_vec};

verus! {

/// Length of a frame's header.
pub const HEADER_LEN: usize = 32;

/// Length of the header's part before the checksum.
pub const PREFIX_LEN: usize = 16;

/// The first two bytes of every frame, as a number.
pub const MAGIC: u16 = 0x2131;

/// A frame's header, field by field.
#[derive(Clone, Copy, Debug, PartialEq, Eq)]
pub struct Header {
    pub magic: u16,
    pub length: u16,
    pub reserved: u32,
    pub device_id: u32,
    pub stamp: u32,
    pub checksum: [u8; 16],
}

/// A header as a mathematical value: the checksum is a sequence of bytes.
#[verifier::ext_equal]
pub struct HeaderView {
    pub magic: u16,
    pub length: u16,
    pub reserved: u32,
    pub device_id: u32,
    pub stamp: u32,
    pub checksum: Seq<u8>,
}

impl View for Header {
    type V = HeaderView;

    open spec fn view(&self) -> HeaderView {
        HeaderView {
            magic: self.magic,
            length: self.length,
            reserved: self.reserved,
            device_id: self.device_id,
            stamp: self.stamp,
            checksum: self.checksum@,
        }
    }
}

impl HeaderView {
    /// The 16 bytes that stand before the checksum.
    pub open spec fn prefix(self) -> Seq<u8> {
        be_u16(self.magic) + be_u16(self.length) + be_u32(self.reserved) + be_u32(self.device_id)
            + be_u32(self.stamp)
    }

    /// The header on the wire.
    pub open spec fn bytes(self) -> Seq<u8> {
        self.prefix() + self.checksum
    }
}

/// The header that the first 32 bytes of `bytes` spell.
pub open spec fn header_of(bytes: Seq<u8>) -> HeaderView
    recommends
        bytes.len() >= 32,
{
    HeaderView {
        magic: be_u16_value(bytes.subrange(0, 2)) as u16,
        length: be_u16_value(bytes.subrange(2, 4)) as u16,
        reserved: be_u32_value(bytes.subrange(4, 8)) as u32,
        device_id: be_u32_value(bytes.subrange(8, 12)) as u32,
        stamp: be_u32_value(bytes.subrange(12, 16)) as u32,
        checksum: bytes.subrange(16, 32),
    }
}

/// A header written out and read back is the same header, whatever follows
/// it on the wire.
pub proof fn lemma_header_of_bytes(header: HeaderView, rest: Seq<u8>)
    requires
        header.checksum.len() == 16,
    ensures
        header.prefix().len() == 16,
        header.bytes().len() == 32,
        (header.bytes() + rest).subrange(0, 32) == header.bytes(),
        (header.bytes() + rest).subrange(0, 16) == header.prefix(),
        (header.bytes() + rest).subrange(32, 32 + rest.len() as int) == rest,
        header_of(header.bytes() + rest) == header,
{
    let wire = header.bytes() + rest;
    assert(wire.subrange(0, 32) =~= header.bytes());
    assert(wire.subrange(0, 16) =~= header.prefix());
    assert(wire.subrange(32, 32 + rest.len() as int) =~= rest);
    assert(wire.subrange(0, 2) =~= be_u16(header.magic));
    assert(wire.subrange(2, 4) =~= be_u16(header.length));
    assert(wire.subrange(4, 8) =~= be_u32(header.reserved));
    assert(wire.subrange(8, 12) =~= be_u32(header.device_id));
    assert(wire.subrange(12, 16) =~= be_u32(header.stamp));
    assert(wire.subrange(16, 32) =~= header.checksum);
    lemma_be_u16_value(header.magic);
    lemma_be_u16_value(header.length);
    lemma_be_u32_value(header.reserved);
    lemma_be_u32_value(header.device_id);
    lemma_be_u32_value(header.stamp);
    assert(header_of(wire) =~= header);
}

/// The header read from 32 bytes or more, written out, is those first 32
/// bytes.
pub proof fn lemma_bytes_of_header(bytes: Seq<u8>)
    requires
        bytes.len() >= 32,
    ensures
        header_of(bytes).checksum.len() == 16,
        header_of(bytes).prefix() == bytes.subrange(0, 16),
        header_of(bytes).bytes() == bytes.subrange(0, 32),
{
    lemma_be_u16_of_value(bytes.subrange(0, 2));
    lemma_be_u16_of_value(bytes.subrange(2, 4));
    lemma_be_u32_of_value(bytes.subrange(4, 8));
    lemma_be_u32_of_value(bytes.subrange(8, 12));
    lemma_be_u32_of_value(bytes.subrange(12, 16));
    assert(header_of(bytes).prefix() =~= bytes.subrange(0, 16));
    assert(header_of(bytes).bytes() =~= bytes.subrange(0, 32));
}

impl Header {
    /// Reads the header off the front of `bytes`: `None` where there are
    /// fewer than 32 of them.
    pub fn parse(bytes: &[u8]) -> (header: Option<Header>)
        ensures
            header is Some <==> bytes@.len() >= 32,
            header matches Some(h) ==> h@ == header_of(bytes@),
    {
        if bytes.len() < HEADER_LEN {
            return None;
        }
        let magic: u16 = slice_get_u16(slice_subrange(bytes, 0, 2));
        let length: u16 = slice_get_u16(slice_subrange(bytes, 2, 4));
        let reserved: u32 = slice_get_u32(slice_subrange(bytes, 4, 8));
        let device_id: u32 = slice_get_u32(slice_subrange(bytes, 8, 12));
        let stamp: u32 = slice_get_u32(slice_subrange(bytes, 12, 16));
        let mut checksum: [u8; 16] = [0; 16];
        let mut i: usize = 0;
        while i < 16
            invariant
                i <= 16,
                bytes@.len() >= 32,
                forall|j: int| 0 <= j < i ==> checksum@[j] == bytes@[16 + j],
            decreases 16 - i,
        {
            checksum[i] = bytes[PREFIX_LEN + i];
            i += 1;
        }
        let header = Header { magic, length, reserved, device_id, stamp, checksum };
        proof {
            assert(header@.checksum =~= bytes@.subrange(16, 32));
            assert(header@ =~= header_of(bytes@));
        }
        Some(header)
    }

    /// The header on the wire.
    pub fn to_bytes(&self) -> (bytes: Vec<u8>)
        ensures
            bytes@ == self@.bytes(),
            bytes@.len() == 32,
    {
        let mut buf = buffer_with_capacity(HEADER_LEN);
        buffer_put_u16(&mut buf, self.magic);
        buffer_put_u16(&mut buf, self.length);
        buffer_put_u32(&mut buf, self.reserved);
        buffer_put_u32(&mut buf, self.device_id);
        buffer_put_u32(&mut buf, self.stamp);
        buffer_put_slice(&mut buf, self.checksum.as_slice());
        proof {
            assert(buffer_bytes(buf) =~= self@.bytes());
        }
        slice_to_vec(buffer_as_slice(&buf))
    }
}

} // verus!
