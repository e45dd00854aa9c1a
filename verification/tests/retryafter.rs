//! Tests of the `Retry-After` resolver.
use std::str::FromStr;

use rate_limits::casesensitive_headermap::CaseSensitiveHeaderMap;
use rate_limits::error::Error;
use rate_limits::retryafter::RateLimit;
use rate_limits::ResetTime;

#[test]
fn parse_retry_after_seconds() {
    let map = CaseSensitiveHeaderMap::from_str("Retry-After: 30").unwrap();
    let retry = map.get("Retry-After").unwrap();

    assert_eq!("30", retry);
}

#[test]
fn retry_after_seconds() {
    let headers = "Retry-After: 19\n";

    let rate = RateLimit::from_str(headers).unwrap();
    assert_eq!(rate.reset(), ResetTime::Seconds(19));
}

#[test]
fn retry_after_seconds_case_sensitive() {
    let headers = "retry-after: 19\n";

    let rate = RateLimit::from_str(headers).unwrap();
    assert_eq!(rate.reset(), ResetTime::Seconds(19));
}

#[test]
fn retry_after_imf_fixdate() {
    let headers = "Retry-After: Fri, 31 Dec 1999 23:59:59 GMT\n";

    let rate = RateLimit::from_str(headers).unwrap();
    assert_eq!(rate.reset(), ResetTime::DateTime(946684799));
}

#[test]
fn retry_after_missing() {
    let r = RateLimit::new(&CaseSensitiveHeaderMap::new());
    assert!(matches!(r, Err(Error::MissingRetryAfter)));
}

#[test]
fn retry_after_invalid() {
    let r = RateLimit::from_str("Retry-After: soon\n");
    assert!(matches!(r, Err(Error::InvalidRetryAfter)));
}
