use pravega_sink::policy::{compute_discontinuity, should_index};

const MIN: u64 = 500_000_000; // 0.5 s
const MAX: u64 = 10_000_000_000; // 10 s

#[test]
fn record_without_instant_is_never_indexed() {
    assert!(!should_index(None, true, None, None, MIN, MAX));
    assert!(!should_index(None, true, Some(5), Some(0), MIN, MAX));
}

#[test]
fn first_random_access_record_is_indexed() {
    assert!(should_index(Some(0), true, None, Some(0), MIN, MAX));
    assert!(should_index(Some(123), true, None, None, MIN, MAX));
}

#[test]
fn random_access_respects_the_minimum_interval() {
    let last = 1_000_000_000;
    assert!(!should_index(Some(last + MIN - 1), true, Some(last), Some(0), MIN, MAX));
    assert!(should_index(Some(last + MIN), true, Some(last), Some(0), MIN, MAX));
}

#[test]
fn delta_records_force_an_entry_past_the_maximum() {
    let last = 1_000_000_000;
    assert!(!should_index(Some(last + MAX), false, Some(last), Some(0), MIN, MAX));
    assert!(should_index(Some(last + MAX + 1), false, Some(last), Some(0), MIN, MAX));
}

#[test]
fn key_frames_at_close_spacing_index_at_the_minimum_interval() {
    // key frames every 0.2 s for 12 s: seek points appear only at >= 0.5 s
    // spacing
    let mut last_index: Option<u64> = None;
    let mut first_valid: Option<u64> = None;
    let mut indexed: Vec<u64> = Vec::new();
    for n in 0..60u64 {
        let ts = n * 200_000_000;
        if first_valid.is_none() {
            first_valid = Some(ts);
        }
        if should_index(Some(ts), true, last_index, first_valid, MIN, MAX) {
            indexed.push(ts);
            last_index = Some(ts);
        }
    }
    assert_eq!(indexed[0], 0);
    for w in indexed.windows(2) {
        assert!(w[1] - w[0] >= MIN);
        // at 0.2 s input spacing the policy never waits past 0.6 s
        assert!(w[1] - w[0] <= 600_000_000);
    }
}

#[test]
fn delta_only_stream_forces_exactly_one_entry_past_the_maximum() {
    // delta records every 0.2 s for 11 s: exactly one forced seek point,
    // at the first record past the 10 s mark
    let mut last_index: Option<u64> = None;
    let mut first_valid: Option<u64> = None;
    let mut indexed: Vec<u64> = Vec::new();
    for n in 0..56u64 {
        let ts = n * 200_000_000;
        if first_valid.is_none() {
            first_valid = Some(ts);
        }
        if should_index(Some(ts), false, last_index, first_valid, MIN, MAX) {
            indexed.push(ts);
            last_index = Some(ts);
        }
    }
    assert_eq!(indexed, vec![10_200_000_000]);
}

#[test]
fn discontinuity_marks() {
    // flagged by the source
    assert!(compute_discontinuity(true, 5, false, Some(1)));
    // the session's very first record
    assert!(compute_discontinuity(false, 0, false, None));
    // the first record ever indexed
    assert!(compute_discontinuity(false, 3, true, None));
    // an ordinary later record
    assert!(!compute_discontinuity(false, 3, false, Some(1)));
    assert!(!compute_discontinuity(false, 3, true, Some(1)));
}
