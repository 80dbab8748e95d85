use chrono::{DateTime, Utc};
use todo_list::prelude::Timestamp;
use todo_list::time::{MAX_SECS, MIN_SECS, NANOS_PER_SEC};

#[test]
fn timestamp_holds_seconds_and_nanoseconds() {
    let t = Timestamp::new(1_431_648_000, 42).unwrap();
    assert_eq!(t.secs(), 1_431_648_000);
    assert_eq!(t.nanos(), 42);
    let t = Timestamp::new(-1, 999_999_999).unwrap();
    assert_eq!(t.secs(), -1);
    assert_eq!(t.nanos(), 999_999_999);
}

#[test]
fn timestamp_refuses_what_is_out_of_range() {
    assert_eq!(NANOS_PER_SEC, 1_000_000_000);
    assert!(Timestamp::new(0, 0).is_some());
    assert!(Timestamp::new(0, 999_999_999).is_some());
    assert!(Timestamp::new(0, 1_000_000_000).is_none());
    assert!(Timestamp::new(59, 1_500_000_000).is_none());
    assert!(Timestamp::new(0, u32::MAX).is_none());
    assert!(Timestamp::new(MIN_SECS, 0).is_some());
    assert!(Timestamp::new(MIN_SECS - 1, 0).is_none());
    assert!(Timestamp::new(MAX_SECS, 999_999_999).is_some());
    assert!(Timestamp::new(MAX_SECS + 1, 0).is_none());
    assert!(Timestamp::new(i64::MIN, 0).is_none());
    assert!(Timestamp::new(i64::MAX, 0).is_none());
}

#[test]
fn timestamp_range_is_the_range_of_chrono() {
    assert_eq!(DateTime::<Utc>::MIN_UTC.timestamp(), MIN_SECS);
    assert_eq!(DateTime::<Utc>::MAX_UTC.timestamp(), MAX_SECS);
    assert!(DateTime::from_timestamp(MIN_SECS, 0).is_some());
    assert!(DateTime::from_timestamp(MIN_SECS - 1, 999_999_999).is_none());
    assert!(DateTime::from_timestamp(MAX_SECS, 999_999_999).is_some());
    assert!(DateTime::from_timestamp(MAX_SECS + 1, 0).is_none());
}

#[test]
fn timestamps_are_ordered_in_time() {
    let stamps = [
        Timestamp::new(MIN_SECS, 0).unwrap(),
        Timestamp::new(-2, 5).unwrap(),
        Timestamp::new(-1, 0).unwrap(),
        Timestamp::new(-1, 999_999_999).unwrap(),
        Timestamp::new(0, 0).unwrap(),
        Timestamp::new(0, 1).unwrap(),
        Timestamp::new(1, 0).unwrap(),
        Timestamp::new(MAX_SECS, 999_999_999).unwrap(),
    ];
    for (i, a) in stamps.iter().enumerate() {
        for (j, b) in stamps.iter().enumerate() {
            assert_eq!(a < b, i < j);
            assert_eq!(a <= b, i <= j);
            assert_eq!(a > b, i > j);
            assert_eq!(a >= b, i >= j);
            assert_eq!(a == b, i == j);
            let x = DateTime::from_timestamp(a.secs(), a.nanos()).unwrap();
            let y = DateTime::from_timestamp(b.secs(), b.nanos()).unwrap();
            assert_eq!(a < b, x < y);
        }
    }
}

#[test]
fn timestamp_round_trips_through_chrono() {
    let now = Utc::now();
    let t = Timestamp::new(now.timestamp(), now.timestamp_subsec_nanos()).unwrap();
    assert_eq!(DateTime::from_timestamp(t.secs(), t.nanos()).unwrap(), now);
}
