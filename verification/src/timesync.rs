//! The handshake packet: the unencrypted frame that answers a device's first
//! contact and tells it the time.

use crate::buffer::{
    be_u32, buffer_bytes, buffer_put_slice, buffer_put_u32, buffer_put_u8, buffer_with_capacity,
};
use crate::clock::unix_time;
use crate::header::{header_of, HeaderView, MAGIC};
use bytes::BytesMut;
use vstd::prelude::*;

verus! {

/// Length of the handshake packet, which is a header without a body.
pub const TIMESYNC_LEN: usize = 32;

/// The low 32 bits of a count of seconds: what the stamp field has room for.
pub open spec fn stamp_of(epoch_secs: u64) -> u32 {
    (epoch_secs % 0x1_0000_0000) as u32
}

/// The handshake packet for a given time: the flag pair `21 31`, the size
/// `00 20`, eight bytes `ff`, the time in seconds since the Unix epoch as a
/// big-endian 32-bit number, and sixteen bytes `ff`.
pub open spec fn timesync_bytes(epoch_secs: u64) -> Seq<u8> {
    seq![0x21u8, 0x31u8, 0x00u8, 0x20u8] + Seq::new(8, |i: int| 0xffu8) + be_u32(
        stamp_of(epoch_secs),
    ) + Seq::new(16, |i: int| 0xffu8)
}

/// Builds the handshake packet for the time `epoch_secs`, in seconds since
/// the Unix epoch. The stamp field holds the low 32 bits of it.
pub fn timesync_packet(epoch_secs: u64) -> (packet: BytesMut)
    ensures
        buffer_bytes(packet) == timesync_bytes(epoch_secs),
{
    let mut packet = buffer_with_capacity(TIMESYNC_LEN);
    buffer_put_u8(&mut packet, 0x21);
    buffer_put_u8(&mut packet, 0x31);
    buffer_put_u8(&mut packet, 0x00);
    buffer_put_u8(&mut packet, 0x20);
    let short_filler: [u8; 8] = [0xff; 8];
    buffer_put_slice(&mut packet, short_filler.as_slice());
    let epoch: u32 = (epoch_secs % 0x1_0000_0000) as u32;
    buffer_put_u32(&mut packet, epoch);
    let long_filler: [u8; 16] = [0xff; 16];
    buffer_put_slice(&mut packet, long_filler.as_slice());
    proof {
        assert(buffer_bytes(packet) =~= timesync_bytes(epoch_secs));
    }
    packet
}

/// Builds the handshake packet for the time that the system clock shows:
/// `None` where the clock stands before the Unix epoch.
pub fn create_timesync_packet() -> (packet: Option<BytesMut>)
    ensures
        packet matches Some(buf) ==> exists|epoch_secs: u64|
            buffer_bytes(buf) == #[trigger] timesync_bytes(epoch_secs),
{
    timesync_packet_at(unix_time())
}

/// The handshake packet for a reading of the clock, as `unix_time` gives
/// it: the packet for the seconds read, and none where the clock gave no
/// reading.
pub fn timesync_packet_at(reading: Option<u64>) -> (packet: Option<BytesMut>)
    ensures
        match reading {
            Some(epoch_secs) => packet matches Some(buf) && buffer_bytes(buf) == timesync_bytes(
                epoch_secs,
            ),
            None => packet is None,
        },
{
    match reading {
        Some(epoch_secs) => Some(timesync_packet(epoch_secs)),
        None => None,
    }
}

/// Two handshake packets are 32 bytes each and differ at most in bytes 12 to
/// 15, which spell the low 32 bits of the time, most significant byte first.
pub proof fn lemma_timesync_layout(epoch_secs: u64, other_secs: u64)
    ensures
        timesync_bytes(epoch_secs).len() == 32,
        timesync_bytes(epoch_secs).subrange(12, 16) == be_u32(stamp_of(epoch_secs)),
        forall|i: int|
            0 <= i < 12 || 16 <= i < 32 ==> timesync_bytes(epoch_secs)[i] == timesync_bytes(
                other_secs,
            )[i],
        stamp_of(epoch_secs) == stamp_of(other_secs) ==> timesync_bytes(epoch_secs)
            == timesync_bytes(other_secs),
{
    assert(timesync_bytes(epoch_secs).subrange(12, 16) =~= be_u32(stamp_of(epoch_secs)));
}

/// The handshake packet is a header: the magic, the length of 32, the time
/// as the stamp, and every other byte `ff`.
pub proof fn lemma_timesync_header(epoch_secs: u64)
    ensures
        timesync_bytes(epoch_secs) == (HeaderView {
            magic: MAGIC,
            length: 32,
            reserved: 0xffff_ffff,
            device_id: 0xffff_ffff,
            stamp: stamp_of(epoch_secs),
            checksum: Seq::new(16, |i: int| 0xffu8),
        }).bytes(),
        header_of(timesync_bytes(epoch_secs)).stamp == stamp_of(epoch_secs),
        header_of(timesync_bytes(epoch_secs)).length == 32,
{
    let header = HeaderView {
        magic: MAGIC,
        length: 32,
        reserved: 0xffff_ffff,
        device_id: 0xffff_ffff,
        stamp: stamp_of(epoch_secs),
        checksum: Seq::new(16, |i: int| 0xffu8),
    };
    assert(timesync_bytes(epoch_secs) =~= header.bytes());
    crate::header::lemma_header_of_bytes(header, Seq::empty());
    assert(header.bytes() + Seq::<u8>::empty() =~= header.bytes());
}

} // verus!
