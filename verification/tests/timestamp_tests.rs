use pravega_sink::timestamp::PravegaTimestamp;

#[test]
fn atomic_conversion_is_identity() {
    assert_eq!(PravegaTimestamp::from_nanoseconds(Some(12345)).nanoseconds(), Some(12345));
    assert_eq!(PravegaTimestamp::from_nanoseconds(None).nanoseconds(), None);
}

#[test]
fn unix_conversion_adds_leap_seconds() {
    assert_eq!(
        PravegaTimestamp::from_unix_nanoseconds(Some(0)).nanoseconds(),
        Some(37_000_000_000)
    );
    assert_eq!(
        PravegaTimestamp::from_unix_nanoseconds(Some(1_000)).nanoseconds(),
        Some(37_000_001_000)
    );
}

#[test]
fn unix_conversion_fails_soft_on_overflow() {
    assert_eq!(PravegaTimestamp::from_unix_nanoseconds(Some(u64::MAX)).nanoseconds(), None);
    assert_eq!(PravegaTimestamp::from_unix_nanoseconds(None).nanoseconds(), None);
}

#[test]
fn ntp_conversion_subtracts_epoch_offset() {
    // the network-time epoch itself maps to the Unix epoch, plus leap seconds
    assert_eq!(
        PravegaTimestamp::from_ntp_nanoseconds(Some(2_208_988_800_000_000_000)).nanoseconds(),
        Some(37_000_000_000)
    );
    assert_eq!(
        PravegaTimestamp::from_ntp_nanoseconds(Some(2_208_988_800_000_000_000 + 5)).nanoseconds(),
        Some(37_000_000_005)
    );
}

#[test]
fn ntp_conversion_fails_soft_below_epoch() {
    assert_eq!(PravegaTimestamp::from_ntp_nanoseconds(Some(1_000)).nanoseconds(), None);
    assert_eq!(PravegaTimestamp::from_ntp_nanoseconds(None).nanoseconds(), None);
}

#[test]
fn saturating_arithmetic() {
    let t = PravegaTimestamp::from_nanoseconds(Some(100));
    assert_eq!(t.saturating_add_nanos(50).nanoseconds(), Some(150));
    assert_eq!(
        PravegaTimestamp::from_nanoseconds(Some(u64::MAX - 1)).saturating_add_nanos(10).nanoseconds(),
        Some(u64::MAX)
    );
    assert_eq!(PravegaTimestamp::none().saturating_add_nanos(10).nanoseconds(), None);
    let a = PravegaTimestamp::from_nanoseconds(Some(300));
    let b = PravegaTimestamp::from_nanoseconds(Some(120));
    assert_eq!(a.saturating_sub_nanos(&b), 180);
    assert_eq!(b.saturating_sub_nanos(&a), 0);
    assert!(b.before(&a));
    assert!(!a.before(&b));
    assert!(!a.before(&a));
    assert!(PravegaTimestamp::none().is_none());
    assert!(a.is_some());
}
