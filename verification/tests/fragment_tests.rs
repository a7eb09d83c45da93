use pravega_sink::event::{fragment_event, MAX_PAYLOAD_SIZE};

#[test]
fn small_payload_is_one_fragment() {
    let payload = vec![1u8, 2, 3];
    let frags = fragment_event(&payload, Some(42), true, true, true);
    assert_eq!(frags.len(), 1);
    assert_eq!(frags[0].payload, payload);
    assert_eq!(frags[0].timestamp, Some(42));
    assert!(frags[0].include_in_index);
    assert!(frags[0].random_access);
    assert!(frags[0].discontinuity);
}

#[test]
fn empty_payload_writes_nothing() {
    let frags = fragment_event(&Vec::new(), Some(1), true, true, false);
    assert_eq!(frags.len(), 0);
}

#[test]
fn payload_at_the_limit_is_not_split() {
    let payload = vec![9u8; MAX_PAYLOAD_SIZE];
    let frags = fragment_event(&payload, None, false, true, false);
    assert_eq!(frags.len(), 1);
    assert_eq!(frags[0].payload.len(), MAX_PAYLOAD_SIZE);
}

#[test]
fn oversized_payload_reassembles_exactly() {
    // a payload five bytes past the atomic limit becomes two fragments
    let mut payload = Vec::with_capacity(MAX_PAYLOAD_SIZE + 5);
    for i in 0..MAX_PAYLOAD_SIZE + 5 {
        payload.push((i % 251) as u8);
    }
    let frags = fragment_event(&payload, Some(7), true, true, true);
    assert_eq!(frags.len(), 2);
    assert_eq!(frags[0].payload.len(), MAX_PAYLOAD_SIZE);
    assert_eq!(frags[1].payload.len(), 5);
    // reassembling all fragments in write order reproduces the payload
    let mut reassembled = Vec::new();
    for f in &frags {
        reassembled.extend_from_slice(&f.payload);
    }
    assert_eq!(reassembled, payload);
    // only the first fragment carries the record's flags; a fragment
    // boundary is no seek point and no discontinuity
    assert!(frags[0].include_in_index);
    assert!(frags[0].random_access);
    assert!(frags[0].discontinuity);
    assert!(!frags[1].include_in_index);
    assert!(!frags[1].random_access);
    assert!(!frags[1].discontinuity);
    assert_eq!(frags[0].timestamp, Some(7));
    assert_eq!(frags[1].timestamp, Some(7));
}

#[test]
fn two_full_fragments_and_a_tail() {
    let payload = vec![3u8; 2 * MAX_PAYLOAD_SIZE + 1];
    let frags = fragment_event(&payload, None, false, false, false);
    assert_eq!(frags.len(), 3);
    assert_eq!(frags[0].payload.len(), MAX_PAYLOAD_SIZE);
    assert_eq!(frags[1].payload.len(), MAX_PAYLOAD_SIZE);
    assert_eq!(frags[2].payload.len(), 1);
}
