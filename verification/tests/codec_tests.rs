use pravega_sink::event::{EventWithHeader, EVENT_HEADER_SIZE, MAX_PAYLOAD_SIZE};
use pravega_sink::index::{decode_index_records, IndexRecord, INDEX_RECORD_SIZE};

#[test]
fn index_record_layout_is_exact() {
    let r = IndexRecord::new(0x0102030405060708, 0x1112131415161718, true, false);
    let b = r.encode();
    assert_eq!(b.len() as u64, INDEX_RECORD_SIZE);
    assert_eq!(
        b,
        vec![
            0x08, 0x07, 0x06, 0x05, 0x04, 0x03, 0x02, 0x01, // instant, little-endian
            0x18, 0x17, 0x16, 0x15, 0x14, 0x13, 0x12, 0x11, // data offset, little-endian
            0x01, 0x00, 0x00, 0x00, // flag word: random access only
        ]
    );
}

#[test]
fn index_record_flag_word() {
    assert_eq!(IndexRecord::new(0, 0, false, false).encode()[16], 0);
    assert_eq!(IndexRecord::new(0, 0, true, false).encode()[16], 1);
    assert_eq!(IndexRecord::new(0, 0, false, true).encode()[16], 2);
    assert_eq!(IndexRecord::new(0, 0, true, true).encode()[16], 3);
}

#[test]
fn index_record_round_trips() {
    let cases = [
        (0u64, 0u64, false, false),
        (1, u64::MAX, true, false),
        (u64::MAX, 7, false, true),
        (1_600_000_000_000_000_000, 123_456_789, true, true),
    ];
    for (ts, off, ra, disc) in cases {
        let r = IndexRecord::new(ts, off, ra, disc);
        let d = IndexRecord::decode(&r.encode());
        assert_eq!(d.timestamp, ts);
        assert_eq!(d.offset, off);
        assert_eq!(d.random_access, ra);
        assert_eq!(d.discontinuity, disc);
    }
}

#[test]
fn whole_index_stretch_decodes() {
    let a = IndexRecord::new(10, 0, true, true);
    let b = IndexRecord::new(20, 400, false, false);
    let mut bytes = a.encode();
    bytes.extend_from_slice(&b.encode());
    let records = decode_index_records(&bytes);
    assert_eq!(records.len(), 2);
    assert_eq!(records[0], a);
    assert_eq!(records[1], b);
}

#[test]
fn event_frame_layout_is_exact() {
    let e = EventWithHeader::new(vec![0xAA, 0xBB], Some(0x0102030405060708), true, false, true);
    let b = e.encode();
    assert_eq!(b.len(), EVENT_HEADER_SIZE + 2);
    assert_eq!(
        b,
        vec![
            0x02, 0x00, 0x00, 0x00, // payload length, little-endian
            0x0D, 0x00, 0x00, 0x00, // flags: indexed + discontinuity + instant present
            0x08, 0x07, 0x06, 0x05, 0x04, 0x03, 0x02, 0x01, // instant, little-endian
            0xAA, 0xBB, // payload
        ]
    );
}

#[test]
fn event_frame_round_trips() {
    let e = EventWithHeader::new(vec![1, 2, 3, 4], Some(99), false, true, false);
    let d = EventWithHeader::decode(&e.encode());
    assert_eq!(d.payload, vec![1, 2, 3, 4]);
    assert_eq!(d.timestamp, Some(99));
    assert!(!d.include_in_index);
    assert!(d.random_access);
    assert!(!d.discontinuity);
}

#[test]
fn event_frame_without_instant() {
    let e = EventWithHeader::new(vec![7], None, false, false, false);
    let b = e.encode();
    // the flag word says no instant is present; the instant field is zero
    assert_eq!(&b[4..16], &[0u8; 12]);
    let d = EventWithHeader::decode(&b);
    assert_eq!(d.timestamp, None);
    assert_eq!(d.payload, vec![7]);
}

#[test]
fn payload_limit_leaves_room_for_the_header() {
    assert_eq!(MAX_PAYLOAD_SIZE + EVENT_HEADER_SIZE, 8 * 1024 * 1024);
}
