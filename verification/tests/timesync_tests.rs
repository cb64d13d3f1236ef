use dummycloud::clock::{elapsed_secs, unix_time};
use std::time::{Duration, SystemTime};
use dummycloud::header::Header;
use dummycloud::timesync::{
    create_timesync_packet, timesync_packet, timesync_packet_at, TIMESYNC_LEN,
};

const FIXED: [u8; 32] = [
    0x21, 0x31, 0x00, 0x20, 0xff, 0xff, 0xff, 0xff, 0xff, 0xff, 0xff, 0xff, 0x00, 0x00, 0x00, 0x00,
    0xff, 0xff, 0xff, 0xff, 0xff, 0xff, 0xff, 0xff, 0xff, 0xff, 0xff, 0xff, 0xff, 0xff, 0xff, 0xff,
];

#[test]
fn timesync_packet_at_epoch_zero() {
    let packet = timesync_packet(0);
    assert_eq!(&packet[..], &FIXED[..]);
}

#[test]
fn timesync_packet_holds_big_endian_time() {
    let packet = timesync_packet(0x5f12_34ab);
    assert_eq!(packet.len(), TIMESYNC_LEN);
    assert_eq!(&packet[..12], &FIXED[..12]);
    assert_eq!(&packet[12..16], &[0x5f, 0x12, 0x34, 0xab]);
    assert_eq!(&packet[16..], &FIXED[16..]);
}

#[test]
fn timesync_packet_keeps_low_32_bits() {
    let packet = timesync_packet(0x0000_0001_0203_0405);
    assert_eq!(&packet[12..16], &[0x02, 0x03, 0x04, 0x05]);
    let wrapped = timesync_packet(0x1_0000_0000);
    assert_eq!(&wrapped[..], &FIXED[..]);
    let last = timesync_packet(0xffff_ffff);
    assert_eq!(&last[12..16], &[0xff, 0xff, 0xff, 0xff]);
}

#[test]
fn timesync_packets_differ_only_in_the_time() {
    let a = timesync_packet(1_600_000_000);
    let b = timesync_packet(1_700_000_001);
    assert_eq!(&a[..12], &b[..12]);
    assert_eq!(&a[16..], &b[16..]);
    assert_ne!(&a[12..16], &b[12..16]);
    assert_eq!(&a[12..16], &1_600_000_000u32.to_be_bytes());
    assert_eq!(&b[12..16], &1_700_000_001u32.to_be_bytes());
}

#[test]
fn timesync_packet_reads_as_a_header() {
    let packet = timesync_packet(1_600_000_000);
    let header = Header::parse(&packet[..]).unwrap();
    assert_eq!(header.magic, 0x2131);
    assert_eq!(header.length, 32);
    assert_eq!(header.reserved, 0xffff_ffff);
    assert_eq!(header.device_id, 0xffff_ffff);
    assert_eq!(header.stamp, 1_600_000_000);
    assert_eq!(header.checksum, [0xff; 16]);
}

#[test]
fn create_timesync_packet_shows_the_clock() {
    let before = unix_time().unwrap();
    let packet = create_timesync_packet().unwrap();
    let after = unix_time().unwrap();
    assert_eq!(packet.len(), 32);
    assert_eq!(&packet[..12], &FIXED[..12]);
    assert_eq!(&packet[16..], &FIXED[16..]);
    let stamp = u32::from_be_bytes([packet[12], packet[13], packet[14], packet[15]]);
    assert!(before as u32 <= stamp && stamp <= after as u32);
}

#[test]
fn unix_time_is_after_2020() {
    let now = unix_time().unwrap();
    assert!(now > 1_577_836_800);
}

#[test]
fn elapsed_secs_drops_the_fraction() {
    assert_eq!(elapsed_secs(Ok(Duration::from_secs(0))), Some(0));
    assert_eq!(elapsed_secs(Ok(Duration::from_millis(1_600_000_000_999))), Some(1_600_000_000));
    assert_eq!(elapsed_secs(Ok(Duration::new(u64::MAX, 999_999_999))), Some(u64::MAX));
}

#[test]
fn elapsed_secs_has_none_before_the_epoch() {
    let later = SystemTime::UNIX_EPOCH + Duration::from_secs(10);
    let before = SystemTime::UNIX_EPOCH.duration_since(later);
    assert!(before.is_err());
    assert_eq!(elapsed_secs(before), None);
    assert_eq!(elapsed_secs(later.duration_since(SystemTime::UNIX_EPOCH)), Some(10));
}

#[test]
fn timesync_packet_at_follows_the_reading() {
    assert!(timesync_packet_at(None).is_none());
    let packet = timesync_packet_at(Some(0x1_0203_0405)).unwrap();
    assert_eq!(&packet[..], &timesync_packet(0x1_0203_0405)[..]);
    assert_eq!(&packet[12..16], &[0x02, 0x03, 0x04, 0x05]);
    assert_eq!(&timesync_packet_at(Some(0)).unwrap()[..], &FIXED[..]);
}
