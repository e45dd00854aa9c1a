//! End-to-end resolution tests over the combined entry point.
use std::str::FromStr;

use http::header::HeaderMap;
use rate_limits::casesensitive_headermap::CaseSensitiveHeaderMap;
use rate_limits::{RateLimit, ResetTime, Vendor};

#[test]
fn test_example() {
    let mut headers = HeaderMap::new();
    headers.insert("X-RATELIMIT-LIMIT", "5000".parse().unwrap());
    headers.insert("X-RATELIMIT-REMAINING", "4987".parse().unwrap());
    headers.insert("X-RATELIMIT-RESET", "1350085394".parse().unwrap());

    let map = CaseSensitiveHeaderMap::from_header_map(&headers);
    assert_eq!(
        RateLimit::new(&map).unwrap(),
        RateLimit::Rfc6585(rate_limits::rfc6585::RateLimit {
            limit: 5000,
            remaining: 4987,
            reset: ResetTime::DateTime(1350085394),
            window: Some(3600),
            vendor: Vendor::Github,
        }),
    );
}

#[test]
fn use_later_reset_time_date() {
    let headers = "X-Ratelimit-Used: 100\nX-Ratelimit-Remaining: 22\nX-Ratelimit-Reset: 30\nRetry-After: Wed, 21 Oct 2015 07:28:00 GMT\n";

    let map = CaseSensitiveHeaderMap::parse_lenient(headers);
    // A fixed instant after the Retry-After date: the signed difference is
    // negative and its unsigned reading is the larger seconds-remaining.
    let rate = RateLimit::new_at(&map, 1700000000).unwrap();
    assert_eq!(rate.reset(), ResetTime::DateTime(1445412480));
}

#[test]
fn use_later_reset_time_seconds() {
    let headers = "X-Ratelimit-Used: 100\nX-Ratelimit-Remaining: 22\nX-Ratelimit-Reset: 30\nRetry-After: 20\n";

    let map = CaseSensitiveHeaderMap::parse_lenient(headers);
    let rate = RateLimit::new_at(&map, 1700000000).unwrap();
    assert_eq!(rate.reset(), ResetTime::Seconds(30));
}

#[test]
fn use_earlier_structured_reset_loses() {
    // The flip side of the precedence rule: when the structured reset claims
    // the shorter wait, the Retry-After value wins.
    let headers = "X-Ratelimit-Used: 100\nX-Ratelimit-Remaining: 22\nX-Ratelimit-Reset: 15\nRetry-After: 20\n";

    let map = CaseSensitiveHeaderMap::parse_lenient(headers);
    let rate = RateLimit::new_at(&map, 1700000000).unwrap();
    assert_eq!(rate.reset(), ResetTime::Seconds(20));
}

#[test]
fn combined_accessors() {
    let headers = "X-Ratelimit-Used: 100\nX-Ratelimit-Remaining: 22\nX-Ratelimit-Reset: 30\n";
    let rate = RateLimit::from_str(headers).unwrap();
    assert_eq!(rate.limit(), Some(122));
    assert_eq!(rate.remaining(), Some(22));
    assert_eq!(rate.reset(), ResetTime::Seconds(30));

    let retry_only = RateLimit::from_str("Retry-After: 20\n").unwrap();
    assert_eq!(retry_only.limit(), None);
    assert_eq!(retry_only.remaining(), None);
    assert_eq!(retry_only.reset(), ResetTime::Seconds(20));
}
