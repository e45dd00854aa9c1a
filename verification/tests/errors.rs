//! Tests pinning each error kind to an input that produces it.
use std::str::FromStr;

use rate_limits::casesensitive_headermap::CaseSensitiveHeaderMap;
use rate_limits::convert::{to_i64, to_usize};
use rate_limits::error::Error;
use rate_limits::RateLimit;

#[test]
fn missing_remaining_when_no_variant_matches() {
    let r = rate_limits::rfc6585::RateLimit::new(&CaseSensitiveHeaderMap::new());
    assert!(matches!(r, Err(Error::MissingRemaining)));
}

#[test]
fn missing_limit_when_neither_limit_nor_used_is_present() {
    let r = rate_limits::rfc6585::RateLimit::from_str(
        "Ratelimit-Remaining: 9\nRatelimit-Reset: 30\n",
    );
    assert!(matches!(r, Err(Error::MissingLimit)));
}

#[test]
fn missing_reset_when_reset_header_is_absent() {
    let r = rate_limits::rfc6585::RateLimit::from_str(
        "x-ratelimit-limit: 10\nx-ratelimit-remaining: 9\n",
    );
    assert!(matches!(r, Err(Error::MissingReset)));
}

#[test]
fn invalid_value_in_remaining() {
    let r = rate_limits::rfc6585::RateLimit::from_str(
        "x-ratelimit-limit: 10\nx-ratelimit-remaining: many\nx-ratelimit-reset: 1350085394\n",
    );
    assert!(matches!(r, Err(Error::InvalidValue)));
}

#[test]
fn combined_surfaces_structured_error_when_both_fail() {
    let r = RateLimit::from_str("X-Other: 1\n");
    assert!(matches!(r, Err(Error::MissingRemaining)));
}

#[test]
fn conversion_bounds() {
    assert_eq!(to_usize(" 23 "), Ok(23));
    assert_eq!(to_usize("+23"), Ok(23));
    assert!(to_usize("").is_err());
    assert!(to_usize("-1").is_err());
    assert!(matches!(to_usize("99999999999999999999999999"), Err(Error::InvalidValue)));

    assert_eq!(to_i64("-12"), Ok(-12));
    assert_eq!(to_i64("+12"), Ok(12));
    assert_eq!(to_i64("9223372036854775807"), Ok(i64::MAX));
    assert_eq!(to_i64("-9223372036854775808"), Ok(i64::MIN));
    assert!(matches!(to_i64("9223372036854775808"), Err(Error::InvalidValue)));
    assert!(matches!(to_i64("-9223372036854775809"), Err(Error::InvalidValue)));
    assert!(to_i64("1.5").is_err());
}
