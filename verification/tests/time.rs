use std::time::Duration;

use flytrap::ping::time::{ns, Clock, Timestamp, UNIX_EPOCH_OFFSET_NS};

#[test]
fn timestamp_raw_value() {
    let t = Timestamp::new(123811200000000000);
    assert_eq!(t.into_raw(), 123811200000000000);
    assert!(!t.is_zero());
    assert!(Timestamp::new(0).is_zero());
}

#[test]
fn timestamp_as_js_rounds_down_and_rebases() {
    // 2023-12-04 00:00:00 UTC
    assert_eq!(Timestamp::new(123811200000000000).as_js(), 1701676800000);
    assert_eq!(Timestamp::new(0).as_js(), 1577865600000);
    assert_eq!(Timestamp::new(999_999).as_js(), 1577865600000);
    assert_eq!(Timestamp::new(1_000_000).as_js(), 1577865600001);
    assert_eq!(Timestamp::new(u64::MAX).as_js(), 18446744073709 + 1577865600000);
}

#[test]
fn timestamp_from_js() {
    assert_eq!(Timestamp::from_js(1701676800000), Timestamp(123811200000000000));
    assert_eq!(Timestamp::from_js(1577865600000), Timestamp(0));
    assert_eq!(Timestamp::from_js(1577865600001), Timestamp(1_000_000));
}

#[test]
fn timestamp_from_js_saturates() {
    assert_eq!(Timestamp::from_js(0), Timestamp(0));
    assert_eq!(Timestamp::from_js(1577865599999), Timestamp(0));
    assert_eq!(Timestamp::from_js(u64::MAX), Timestamp(u64::MAX));
}

#[test]
fn timestamp_js_round_trip_at_millisecond_precision() {
    let t = Timestamp(123811200123000000);
    assert_eq!(Timestamp::from_js(t.as_js()), t);
}

#[test]
fn timestamp_plus_duration() {
    let t = Timestamp(1_000);
    assert_eq!(t + Duration::from_nanos(24), Timestamp(1_024));
    assert_eq!(t + Duration::from_millis(200), Timestamp(200_001_000));
    assert_eq!(Timestamp(u64::MAX - 1) + Duration::from_nanos(5), Timestamp(u64::MAX));
    assert_eq!(t + Duration::MAX, Timestamp(u64::MAX));
}

#[test]
fn timestamp_minus_duration() {
    let t = Timestamp(1_000);
    assert_eq!(t - Duration::from_nanos(1), Timestamp(999));
    assert_eq!(t - Duration::from_nanos(1_000), Timestamp(0));
    assert_eq!(t - Duration::from_secs(1), Timestamp(0));
    assert_eq!(t - Duration::MAX, Timestamp(0));
}

#[test]
fn timestamp_minus_timestamp() {
    assert_eq!(Timestamp(1_500) - Timestamp(1_000), Duration::from_nanos(500));
    assert_eq!(Timestamp(1_000) - Timestamp(1_000), Duration::ZERO);
    // an earlier time minus a later one is no time at all
    assert_eq!(Timestamp(1_000) - Timestamp(1_500), Duration::ZERO);
    assert_eq!(Timestamp(u64::MAX) - Timestamp(0), Duration::from_nanos(u64::MAX));
}

#[test]
fn nanoseconds_of_a_duration() {
    assert_eq!(ns(Duration::ZERO), 0);
    assert_eq!(ns(Duration::new(3, 7)), 3_000_000_007);
    assert_eq!(ns(Duration::from_nanos(u64::MAX)), u64::MAX);
    assert_eq!(ns(Duration::from_nanos(u64::MAX) + Duration::from_nanos(1)), u64::MAX);
    assert_eq!(ns(Duration::MAX), u64::MAX);
}

#[test]
fn timestamp_from_duration_since_epoch() {
    assert_eq!(
        Timestamp::from_duration_since_epoch(Duration::from_secs(2)),
        Timestamp(2_000_000_000)
    );
}

#[test]
fn clock_offset_counts_from_2020() {
    assert_eq!(
        Clock::since_epoch(Duration::from_secs(1_577_865_600)),
        Duration::ZERO
    );
    assert_eq!(
        Clock::since_epoch(Duration::from_secs(1_577_865_601)),
        Duration::from_secs(1)
    );
    assert_eq!(Clock::since_epoch(Duration::from_secs(5)), Duration::ZERO);
    assert_eq!(UNIX_EPOCH_OFFSET_NS, 1_577_865_600 * 1_000_000_000);
}

#[test]
fn clock_goes_forward_from_its_offset() {
    let clock = Clock::new();
    let offset = Timestamp::from_duration_since_epoch(clock.offset);
    // this test runs after 2023
    assert!(offset > Timestamp(123811200000000000));
    let a = clock.now();
    let b = clock.now();
    assert!(offset <= a);
    assert!(a <= b);
    assert_eq!(clock.at(Duration::from_nanos(5)), offset + Duration::from_nanos(5));
    assert_eq!(clock.enter(clock.reference), offset);
    assert!(clock.elapsed() < Duration::from_secs(3600));
}

#[test]
fn timestamp_into_u64_is_as_js() {
    assert_eq!(u64::from(Timestamp(123811200000000000)), 1701676800000);
}
