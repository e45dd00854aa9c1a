//! Tests of the multi-format reset-time decoder and its derived queries.
use rate_limits::reset_time::{ResetTime, ResetTimeKind};
use rate_limits::error::Error;

#[test]
fn parse_reset_timestamp() {
    assert_eq!(
        ResetTime::new("1350085394", ResetTimeKind::Timestamp).unwrap(),
        ResetTime::DateTime(1350085394)
    );
}

#[test]
fn parse_reset_seconds() {
    assert_eq!(
        ResetTime::new("100", ResetTimeKind::Seconds).unwrap(),
        ResetTime::Seconds(100)
    );
}

#[test]
fn parse_reset_datetime() {
    let d = ResetTime::new("Tue, 15 Nov 1994 08:12:31 GMT", ResetTimeKind::ImfFixdate);
    assert_eq!(d.unwrap(), ResetTime::DateTime(784887151));
}

#[test]
fn parse_reset_iso8601_compact() {
    let d = ResetTime::new("20210105T130000Z", ResetTimeKind::Iso8601);
    assert_eq!(d.unwrap(), ResetTime::DateTime(1609851600));
}

#[test]
fn parse_reset_iso8601_rejects_extended_form() {
    // Only the fixed compact profile is accepted; the extended form with
    // separators is not part of it.
    let d = ResetTime::new("2021-01-05T13:00:00Z", ResetTimeKind::Iso8601);
    assert!(matches!(d, Err(Error::DateParseError)));
}

#[test]
fn reset_decode_is_idempotent() {
    // Two decodes of the same literal under the same encoding agree.
    let a = ResetTime::new(" 42 ", ResetTimeKind::Seconds).unwrap();
    let b = ResetTime::new(" 42 ", ResetTimeKind::Seconds).unwrap();
    assert_eq!(a, b);
    let c = ResetTime::new("1350085394", ResetTimeKind::Timestamp).unwrap();
    let d = ResetTime::new("1350085394", ResetTimeKind::Timestamp).unwrap();
    assert_eq!(c, d);
}

#[test]
fn timestamp_out_of_calendar_range() {
    let r = ResetTime::new("999999999999999", ResetTimeKind::Timestamp);
    assert!(matches!(r, Err(Error::InvalidTimeRange)));
    let r = ResetTime::new("-999999999999999", ResetTimeKind::Timestamp);
    assert!(matches!(r, Err(Error::InvalidTimeRange)));
}

#[test]
fn timestamp_invalid_value() {
    let r = ResetTime::new("12x", ResetTimeKind::Timestamp);
    assert!(matches!(r, Err(Error::InvalidValue)));
}

#[test]
fn date_parse_error() {
    let r = ResetTime::new("yesterday", ResetTimeKind::ImfFixdate);
    assert!(matches!(r, Err(Error::DateParseError)));
    let r = ResetTime::new("yesterday", ResetTimeKind::Iso8601);
    assert!(matches!(r, Err(Error::DateParseError)));
}

#[test]
fn seconds_at_counts_down_from_now() {
    assert_eq!(ResetTime::Seconds(30).seconds_at(1700000000), 30);
    assert_eq!(
        ResetTime::DateTime(1700000060).seconds_at(1700000000),
        60
    );
    // A past instant wraps to the unsigned reading of the signed difference.
    assert_eq!(
        ResetTime::DateTime(1699999999).seconds_at(1700000000),
        u64::MAX
    );
}

#[test]
fn seconds_of_countdown_is_the_count() {
    assert_eq!(ResetTime::Seconds(5).seconds(), 5);
}

#[test]
fn duration_at_is_signed() {
    assert_eq!(ResetTime::Seconds(7).duration_at(1700000000), 7);
    assert_eq!(ResetTime::DateTime(1700000060).duration_at(1700000000), 60);
    assert_eq!(ResetTime::DateTime(1699999990).duration_at(1700000000), -10);
    assert_eq!(ResetTime::Seconds(7).duration(), 7);
}
