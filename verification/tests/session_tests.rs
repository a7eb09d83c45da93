use pravega_sink::config::TimestampMode;
use pravega_sink::event::{EventWithHeader, MAX_PAYLOAD_SIZE};
use pravega_sink::index::IndexRecord;
use pravega_sink::session::{map_timestamp, Record, RenderError, SinkSession};

fn record(payload: Vec<u8>, pts: Option<u64>, random_access: bool) -> Record {
    Record {
        payload,
        pts,
        duration: None,
        random_access,
        discontinuity: false,
        sync_after: false,
    }
}

#[test]
fn timestamp_mapping_follows_the_mode() {
    assert_eq!(map_timestamp(TimestampMode::Tai, Some(5), None), Some(5));
    assert_eq!(
        map_timestamp(TimestampMode::RealtimeClock, Some(20), Some(10)),
        Some(30 + 37_000_000_000)
    );
    assert_eq!(map_timestamp(TimestampMode::RealtimeClock, Some(20), None), None);
    assert_eq!(
        map_timestamp(TimestampMode::Ntp, Some(2_208_988_800_000_000_000), None),
        Some(37_000_000_000)
    );
    assert_eq!(map_timestamp(TimestampMode::Tai, None, Some(1)), None);
}

#[test]
fn first_key_frame_is_indexed_as_a_discontinuity() {
    let mut s = SinkSession::begin(TimestampMode::Tai, 500_000_000, 10_000_000_000, true, 0, 0);
    let plan = s.render(&record(vec![1, 2, 3], Some(1_000), true), None).unwrap();
    assert_eq!(plan.timestamp, Some(1_000));
    assert!(plan.include_in_index);
    assert!(plan.flush_before);
    assert!(plan.discontinuity);
    // the seek point: the record's instant, at the data offset before the write
    let expected = IndexRecord::new(1_000, 0, true, true).encode();
    assert_eq!(plan.index_record_bytes, Some(expected));
    // the payload fits one frame, flagged exactly like the record
    assert_eq!(plan.data_frames.len(), 1);
    assert_eq!(
        plan.data_frames[0],
        EventWithHeader::new(vec![1, 2, 3], Some(1_000), true, true, true).encode()
    );
    // the session's bookkeeping moved
    assert_eq!(s.buffers_written, 1);
    assert_eq!(s.last_index_time, Some(1_000));
    assert_eq!(s.first_valid_time, Some(1_000));
    assert_eq!(s.data_writer.tail, 16 + 3);
    assert_eq!(s.index_writer.tail, 20);
    assert_eq!(s.final_offset, Some(19));
    // a zero or missing duration counts as one nanosecond
    assert_eq!(s.final_timestamp, Some(1_001));
    // the flush before the seek point made everything up to its offset
    // durable; the record's own bytes wait for the next flush
    assert_eq!(s.data_writer.durable, 0);
}

#[test]
fn close_key_frames_are_not_reindexed() {
    let mut s = SinkSession::begin(TimestampMode::Tai, 500_000_000, 10_000_000_000, false, 0, 0);
    s.render(&record(vec![1], Some(1_000), true), None).unwrap();
    let plan = s.render(&record(vec![2], Some(400_000_000), true), None).unwrap();
    assert!(!plan.include_in_index);
    assert!(plan.index_record_bytes.is_none());
    assert!(!plan.flush_before);
    // not flagged, not first, not indexed: no discontinuity either
    assert!(!plan.discontinuity);
    assert_eq!(s.index_writer.tail, 20);
    assert_eq!(s.buffers_written, 2);
}

#[test]
fn record_without_instant_is_written_but_never_indexed() {
    let mut s = SinkSession::begin(TimestampMode::Tai, 0, 0, false, 0, 0);
    let plan = s.render(&record(vec![5, 6], None, true), None).unwrap();
    assert!(!plan.include_in_index);
    assert_eq!(plan.timestamp, None);
    assert_eq!(plan.data_frames.len(), 1);
    assert_eq!(s.first_valid_time, None);
    assert_eq!(s.final_timestamp, None);
    assert_eq!(s.final_offset, Some(18));
}

#[test]
fn stop_writes_the_terminal_index_record_and_seals() {
    let mut s = SinkSession::begin(TimestampMode::Tai, 500_000_000, 10_000_000_000, true, 0, 0);
    s.render(
        &Record {
            payload: vec![1, 2, 3],
            pts: Some(1_000),
            duration: Some(40),
            random_access: true,
            discontinuity: false,
            sync_after: false,
        },
        None,
    )
    .unwrap();
    let plan = s.stop().unwrap();
    // the terminal record: last instant plus duration, at the final offset
    let expected = IndexRecord::new(1_040, 19, false, false).encode();
    assert_eq!(plan.final_index_record_bytes, Some(expected));
    assert!(plan.seal_streams);
    assert!(s.data_writer.sealed);
    assert!(s.index_writer.sealed);
    assert!(!s.active);
    // both streams end flushed
    assert_eq!(s.data_writer.durable, s.data_writer.tail);
    assert_eq!(s.index_writer.durable, s.index_writer.tail);
}

#[test]
fn stop_without_any_write_adds_no_terminal_record() {
    let mut s = SinkSession::begin(TimestampMode::Tai, 0, 0, false, 7, 9);
    let plan = s.stop().unwrap();
    assert!(plan.final_index_record_bytes.is_none());
    assert!(!plan.seal_streams);
    assert!(!s.data_writer.sealed);
}

#[test]
fn sync_after_flushes_both_streams() {
    let mut s = SinkSession::begin(TimestampMode::Tai, 0, 0, false, 0, 0);
    let mut r = record(vec![1], Some(5), false);
    r.sync_after = true;
    let plan = s.render(&r, None).unwrap();
    assert!(plan.sync_after);
    assert_eq!(s.data_writer.durable, s.data_writer.tail);
    assert_eq!(s.index_writer.durable, s.index_writer.tail);
}

#[test]
fn an_append_past_the_offset_domain_is_refused_and_changes_nothing() {
    let mut s = SinkSession::begin(TimestampMode::Tai, 0, 0, false, u64::MAX, 0);
    let r = s.render(&record(vec![1], Some(5), true), None);
    assert!(matches!(r, Err(RenderError::PositionOverflow)));
    assert_eq!(s.data_writer.tail, u64::MAX);
    assert_eq!(s.buffers_written, 0);
    assert_eq!(s.first_valid_time, None);
}

#[test]
fn oversized_record_becomes_ordered_fragments_in_the_plan() {
    let mut payload = vec![0u8; MAX_PAYLOAD_SIZE + 2];
    payload[0] = 0xAB;
    let mut s = SinkSession::begin(TimestampMode::Tai, 0, 10, false, 0, 0);
    let plan = s.render(&record(payload, Some(1), true), None).unwrap();
    assert!(plan.include_in_index);
    assert_eq!(plan.data_frames.len(), 2);
    // each frame is one atomic write; only the first is flagged
    let first = EventWithHeader::decode(&plan.data_frames[0]);
    let second = EventWithHeader::decode(&plan.data_frames[1]);
    assert!(first.include_in_index && first.random_access);
    assert!(!second.include_in_index && !second.random_access && !second.discontinuity);
    assert_eq!(first.payload.len(), MAX_PAYLOAD_SIZE);
    assert_eq!(second.payload.len(), 2);
    assert_eq!(s.data_writer.tail, (MAX_PAYLOAD_SIZE + 2 + 2 * 16) as u64);
}
