use repcxl::clock::{get_time_ns, nanos_to_time_ns};

#[test]
fn clock_reads_after_2020() {
    // 2020-01-01T00:00:00Z in nanoseconds since the epoch.
    let t = get_time_ns().expect("SystemTime before UNIX EPOCH!");
    assert!(t > 1_577_836_800_000_000_000);
}

#[test]
fn clock_does_not_go_far_back() {
    let a = get_time_ns().unwrap();
    let b = get_time_ns().unwrap();
    assert!(b + 1_000_000_000 > a);
}

#[test]
fn nanos_fitting_u64_are_kept() {
    assert_eq!(nanos_to_time_ns(0), 0);
    assert_eq!(nanos_to_time_ns(1_700_000_000_123_456_789), 1_700_000_000_123_456_789);
    assert_eq!(nanos_to_time_ns(u64::MAX as u128), u64::MAX);
}

#[test]
fn nanos_beyond_u64_wrap() {
    assert_eq!(nanos_to_time_ns(u64::MAX as u128 + 5), 4);
    assert_eq!(nanos_to_time_ns(3u128 << 64), 0);
}
