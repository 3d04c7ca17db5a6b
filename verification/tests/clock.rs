use kiro_rs::clock::{Timestamp, MAX_SECONDS};

fn at(seconds: i64, nanos: u32) -> Timestamp {
    Timestamp { seconds, nanos }
}

#[test]
fn times_are_ordered() {
    assert!(at(5, 0).is_at_or_after(&at(5, 0)));
    assert!(at(5, 1).is_at_or_after(&at(5, 0)));
    assert!(!at(4, 999_999_999).is_at_or_after(&at(5, 0)));
}

#[test]
fn seconds_are_added() {
    assert_eq!(at(10, 7).plus_seconds(600), Some(at(610, 7)));
    assert_eq!(at(10, 7).plus_seconds(-20), Some(at(-10, 7)));
    assert_eq!(at(MAX_SECONDS, 0).plus_seconds(1), None);
    assert_eq!(at(MAX_SECONDS, 999_999_999).plus_seconds(0), Some(at(MAX_SECONDS, 999_999_999)));
    assert_eq!(at(0, 0).plus_seconds(i64::MAX), None);
    assert_eq!(at(0, 0).plus_seconds(i64::MIN), None);
}

#[test]
fn ages_are_whole_seconds() {
    assert_eq!(at(1800, 0).age(&at(0, 0)), 1800);
    assert_eq!(at(1800, 0).age(&at(0, 1)), 1799);
    assert_eq!(at(0, 1).age(&at(1800, 0)), -1799);
}

#[test]
fn times_are_written() {
    assert_eq!(at(0, 0).to_rfc3339(), "1970-01-01T00:00:00+00:00");
    assert_eq!(at(1_000_000_000, 0).to_rfc3339(), "2001-09-09T01:46:40+00:00");
}
