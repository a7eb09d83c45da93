use pravega_sink::index::IndexRecord;
use pravega_sink::search::{IndexSnapshot, SearchError};

fn snapshot() -> IndexSnapshot {
    IndexSnapshot::new_checked(
        100,
        vec![
            IndexRecord::new(10, 0, true, true),
            IndexRecord::new(20, 400, true, false),
            IndexRecord::new(30, 900, false, false),
            IndexRecord::new(40, 1500, true, false),
        ],
    )
    .unwrap()
}

#[test]
fn snapshot_checking_rejects_disorder() {
    assert!(IndexSnapshot::new_checked(
        0,
        vec![IndexRecord::new(20, 0, true, false), IndexRecord::new(10, 8, true, false)],
    )
    .is_none());
    assert!(IndexSnapshot::new_checked(
        0,
        vec![IndexRecord::new(10, 100, true, false), IndexRecord::new(20, 50, true, false)],
    )
    .is_none());
    assert!(IndexSnapshot::new_checked(u64::MAX, vec![IndexRecord::new(1, 1, true, false)])
        .is_none());
    assert!(IndexSnapshot::new_checked(0, Vec::new()).is_some());
}

#[test]
fn search_by_instant_finds_the_nearest_preceding_record() {
    let s = snapshot();
    let (rec, off) = s.search_by_instant(25).unwrap();
    assert_eq!(rec.timestamp, 20);
    assert_eq!(rec.offset, 400);
    assert_eq!(off, 100 + 20); // the second record's own offset in the index stream
    let (rec, off) = s.search_by_instant(40).unwrap();
    assert_eq!(rec.timestamp, 40);
    assert_eq!(off, 100 + 60);
    let (rec, _) = s.search_by_instant(u64::MAX).unwrap();
    assert_eq!(rec.timestamp, 40);
    let (rec, off) = s.search_by_instant(10).unwrap();
    assert_eq!(rec.timestamp, 10);
    assert_eq!(off, 100);
}

#[test]
fn search_by_instant_not_found_when_all_records_are_newer() {
    let s = snapshot();
    assert_eq!(s.search_by_instant(9), Err(SearchError::NotFound));
}

#[test]
fn search_by_cumulative_size_finds_the_deepest_record_within_budget() {
    let s = snapshot();
    // tail 1600: retained sizes are 1600, 1200, 700, 100
    let (rec, off) = s.search_by_cumulative_size(1600, 1000).unwrap();
    assert_eq!(rec.offset, 900);
    assert_eq!(off, 100 + 40);
    // a generous budget keeps everything: the oldest record qualifies
    let (rec, _) = s.search_by_cumulative_size(1600, 1600).unwrap();
    assert_eq!(rec.offset, 0);
}

#[test]
fn search_by_cumulative_size_not_found_when_even_the_newest_is_too_far() {
    let s = snapshot();
    assert_eq!(s.search_by_cumulative_size(1600, 99), Err(SearchError::NotFound));
}
