use scheduler_backing::job::{ScheduledJob, Timestamp, MAX_UNIX_SECS, MIN_UNIX_SECS};

#[test]
fn epoch_formats_with_nanoseconds_and_z() {
    let t = Timestamp::new(0, 0).unwrap();
    assert_eq!(t.to_rfc3339(), "1970-01-01T00:00:00.000000000Z");
}

#[test]
fn instant_formats_as_chrono_does() {
    let t = Timestamp::new(1431648000, 123_456_789).unwrap();
    assert_eq!(t.to_rfc3339(), "2015-05-15T00:00:00.123456789Z");
    assert_eq!(t.secs(), 1431648000);
    assert_eq!(t.nanos(), 123_456_789);
}

#[test]
fn range_ends_are_accepted_and_formatted() {
    let first = Timestamp::new(MIN_UNIX_SECS, 0).unwrap();
    let last = Timestamp::new(MAX_UNIX_SECS, 999_999_999).unwrap();
    assert!(first.to_rfc3339().starts_with("-262143-01-01T00:00:00"));
    assert!(last.to_rfc3339().starts_with("+262142-12-31T23:59:59"));
}

#[test]
fn range_bounds_match_chrono() {
    assert!(chrono::DateTime::from_timestamp(MIN_UNIX_SECS, 0).is_some());
    assert!(chrono::DateTime::from_timestamp(MIN_UNIX_SECS - 1, 0).is_none());
    assert!(chrono::DateTime::from_timestamp(MAX_UNIX_SECS, 0).is_some());
    assert!(chrono::DateTime::from_timestamp(MAX_UNIX_SECS + 1, 0).is_none());
}

#[test]
fn out_of_range_instants_are_refused() {
    assert!(Timestamp::new(MIN_UNIX_SECS - 1, 0).is_none());
    assert!(Timestamp::new(MAX_UNIX_SECS + 1, 0).is_none());
    assert!(Timestamp::new(0, 2_000_000_000).is_none());
}

#[test]
fn leap_second_only_in_last_second_of_a_minute() {
    assert!(Timestamp::new(59, 1_500_000_000).is_some());
    assert!(Timestamp::new(58, 1_500_000_000).is_none());
    assert!(Timestamp::new(-1, 1_000_000_000).is_some());
    assert!(Timestamp::new(-2, 1_000_000_000).is_none());
    assert_eq!(chrono::DateTime::from_timestamp(-1, 1_000_000_000).is_some(), true);
    assert_eq!(chrono::DateTime::from_timestamp(-2, 1_000_000_000).is_some(), false);
}

#[test]
fn leap_second_formats_as_sixty() {
    let t = Timestamp::new(59, 1_000_000_000).unwrap();
    assert_eq!(t.to_rfc3339(), "1970-01-01T00:00:60.000000000Z");
}

#[test]
fn set_last_run_changes_only_the_last_run() {
    let mut job = ScheduledJob { id: "a".to_string(), last_run: None, details: 7u8 };
    let t = Timestamp::new(10, 5).unwrap();
    job.set_last_run(t);
    assert_eq!(job.id, "a");
    assert_eq!(job.details, 7);
    let got = job.last_run.unwrap();
    assert_eq!((got.secs(), got.nanos()), (10, 5));
}
