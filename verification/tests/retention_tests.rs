use pravega_sink::config::ConfigError;
use pravega_sink::index::IndexRecord;
use pravega_sink::retention::{
    plan_age_truncation, plan_size_truncation, retention_tick, RetentionPolicy, RetentionType,
};
use pravega_sink::search::IndexSnapshot;
use pravega_sink::writer::StreamWriter;

#[test]
fn policy_construction_demands_its_parameters() {
    assert_eq!(
        RetentionPolicy::new(RetentionType::Days, None, None),
        Err(ConfigError::RetentionDaysNotSet)
    );
    assert_eq!(
        RetentionPolicy::new(RetentionType::Bytes, Some(1), None),
        Err(ConfigError::RetentionBytesNotSet)
    );
    assert_eq!(
        RetentionPolicy::new(RetentionType::DaysAndBytes, None, Some(1)),
        Err(ConfigError::RetentionDaysNotSet)
    );
    assert_eq!(
        RetentionPolicy::new(RetentionType::DaysAndBytes, Some(1), None),
        Err(ConfigError::RetentionBytesNotSet)
    );
    assert_eq!(
        RetentionPolicy::new(RetentionType::Days, Some(86_400), None),
        Ok(RetentionPolicy::Days(86_400))
    );
    assert_eq!(
        RetentionPolicy::new(RetentionType::DaysAndBytes, Some(86_400), Some(5)),
        Ok(RetentionPolicy::DaysAndBytes(86_400, 5))
    );
    assert_eq!(
        RetentionPolicy::new(RetentionType::Disabled, None, None),
        Ok(RetentionPolicy::Disabled)
    );
}

fn snapshot() -> IndexSnapshot {
    IndexSnapshot::new_checked(
        0,
        vec![
            IndexRecord::new(1_000_000_000, 0, true, true),
            IndexRecord::new(5_000_000_000, 400, true, false),
            IndexRecord::new(9_000_000_000, 900, true, false),
            IndexRecord::new(13_000_000_000, 1500, true, false),
        ],
    )
    .unwrap()
}

#[test]
fn age_plan_cuts_at_the_last_record_within_the_window() {
    let s = snapshot();
    // now = 20 s, window 12 s: the boundary instant is 8 s, the boundary
    // record the one at 5 s
    let tp = plan_age_truncation(&s, 20_000_000_000, 12).unwrap();
    assert_eq!(tp.data_offset, 400);
    assert_eq!(tp.index_offset, 20);
}

#[test]
fn age_plan_skips_the_cycle_when_everything_is_young() {
    let s = snapshot();
    assert!(plan_age_truncation(&s, 20_000_000_000, 20).is_none());
    // a window reaching before the epoch keeps everything
    assert!(plan_age_truncation(&s, 20_000_000_000, u64::MAX).is_none());
}

#[test]
fn size_plan_retains_no_more_and_no_less_than_the_budget_allows() {
    let s = snapshot();
    let tp = plan_size_truncation(&s, 1600, 1000).unwrap();
    assert_eq!(tp.data_offset, 900);
    assert_eq!(tp.index_offset, 40);
}

#[test]
fn days_truncation_leaves_no_stale_reachable_record() {
    let s = snapshot();
    let mut index_writer = StreamWriter::open_at(0, 80);
    let mut data_writer = StreamWriter::open_at(0, 1600);
    let policy = RetentionPolicy::Days(12);
    let (age_cut, size_cut) =
        retention_tick(&policy, 20_000_000_000, &s, &mut index_writer, &mut data_writer);
    assert!(size_cut.is_none());
    let tp = age_cut.unwrap();
    assert_eq!(index_writer.head, tp.index_offset);
    assert_eq!(data_writer.head, tp.data_offset);
    // no reachable index record points into truncated data, and none but
    // the boundary record is older than the boundary instant
    let target = 8_000_000_000;
    for (i, rec) in [
        IndexRecord::new(1_000_000_000, 0, true, true),
        IndexRecord::new(5_000_000_000, 400, true, false),
        IndexRecord::new(9_000_000_000, 900, true, false),
        IndexRecord::new(13_000_000_000, 1500, true, false),
    ]
    .iter()
    .enumerate()
    {
        let record_offset = (i as u64) * 20;
        if record_offset >= index_writer.head {
            assert!(rec.offset >= data_writer.head);
            if record_offset > index_writer.head {
                assert!(rec.timestamp > target);
            }
        }
    }
}

#[test]
fn bytes_truncation_scenario() {
    // entries at data offsets 0, 400, 900, 1500 with tail 1600: a budget
    // of 1000 bytes cuts both streams before the entry at 900
    let s = IndexSnapshot::new_checked(
        0,
        vec![
            IndexRecord::new(10, 0, true, true),
            IndexRecord::new(20, 400, true, false),
            IndexRecord::new(30, 900, true, false),
            IndexRecord::new(40, 1500, true, false),
        ],
    )
    .unwrap();
    let mut index_writer = StreamWriter::open_at(0, 80);
    let mut data_writer = StreamWriter::open_at(0, 1600);
    let policy = RetentionPolicy::Bytes(1000);
    let (age_cut, size_cut) = retention_tick(&policy, 0, &s, &mut index_writer, &mut data_writer);
    assert!(age_cut.is_none());
    let tp = size_cut.unwrap();
    assert_eq!(tp.data_offset, 900);
    assert_eq!(data_writer.head, 900);
    assert_eq!(index_writer.head, 40);
}

#[test]
fn disabled_policy_never_truncates() {
    let s = snapshot();
    let mut index_writer = StreamWriter::open_at(7, 80);
    let mut data_writer = StreamWriter::open_at(9, 1600);
    let (age_cut, size_cut) =
        retention_tick(&RetentionPolicy::Disabled, u64::MAX, &s, &mut index_writer, &mut data_writer);
    assert!(age_cut.is_none());
    assert!(size_cut.is_none());
    assert_eq!(index_writer.head, 7);
    assert_eq!(data_writer.head, 9);
}
