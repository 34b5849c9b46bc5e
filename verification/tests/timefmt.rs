use stat_report::timefmt::format_timestamp;

use stat_report::errors::ReportError;

#[test]
fn epoch_renders_in_utc_with_zero_time_of_day() {
    let s = format_timestamp(0, 0).unwrap();
    assert_eq!(s.as_str(), "1970-01-01T00:00:00+00:00");
}

#[test]
fn formatting_is_deterministic() {
    let a = format_timestamp(1709374530, 123456789).unwrap();
    let b = format_timestamp(1709374530, 123456789).unwrap();
    assert_eq!(a, b);
}

#[test]
fn known_instant_renders_with_nanoseconds_and_offset() {
    let s = format_timestamp(1709374530, 123456789).unwrap();
    assert_eq!(s.as_str(), "2024-03-02T10:15:30.123456789+00:00");
}

#[test]
fn seconds_precision_round_trips_exactly() {
    for secs in [0i64, 1, -1, 86399, 951782400, 1709374530, -2208988800] {
        let s = format_timestamp(secs, 0).unwrap();
        let parsed = chrono::DateTime::parse_from_rfc3339(s.as_str()).unwrap();
        assert_eq!(parsed.timestamp(), secs);
    }
}

#[test]
fn sub_second_part_round_trips() {
    let s = format_timestamp(42, 999999999).unwrap();
    let parsed = chrono::DateTime::parse_from_rfc3339(s.as_str()).unwrap();
    assert_eq!(parsed.timestamp(), 42);
    assert_eq!(parsed.timestamp_subsec_nanos(), 999999999);
}

#[test]
fn negative_timestamps_render_before_the_epoch() {
    let s = format_timestamp(-1, 0).unwrap();
    assert_eq!(s.as_str(), "1969-12-31T23:59:59+00:00");
}

#[test]
fn out_of_range_seconds_are_an_error() {
    assert_eq!(format_timestamp(i64::MAX, 0), Err(ReportError::TimestampOutOfRange));
    assert_eq!(format_timestamp(i64::MIN, 0), Err(ReportError::TimestampOutOfRange));
}

#[test]
fn representable_range_boundaries_are_exact() {
    assert!(format_timestamp(8210266876799, 0).is_ok());
    assert_eq!(format_timestamp(8210266876800, 0), Err(ReportError::TimestampOutOfRange));
    assert!(format_timestamp(-8334601228800, 0).is_ok());
    assert_eq!(format_timestamp(-8334601228801, 0), Err(ReportError::TimestampOutOfRange));
}

#[test]
fn invalid_nanoseconds_are_an_error() {
    assert_eq!(format_timestamp(0, 2_000_000_000), Err(ReportError::TimestampOutOfRange));
    assert_eq!(format_timestamp(58, 1_500_000_000), Err(ReportError::TimestampOutOfRange));
}

#[test]
fn leap_second_nanoseconds_are_accepted_in_the_last_second_of_a_minute() {
    assert!(format_timestamp(59, 1_500_000_000).is_ok());
}
