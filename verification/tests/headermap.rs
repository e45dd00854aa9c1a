//! Tests of the case-sensitive header store and raw-block ingestion.
use std::str::FromStr;

use http::header::HeaderMap;
use rate_limits::casesensitive_headermap::CaseSensitiveHeaderMap;
use rate_limits::error::Error;

#[test]
fn test_convert_from_header_map() {
    let mut headers = HeaderMap::new();
    headers.insert("X-RateLimit-Limit", "100".parse().unwrap());
    headers.insert("X-RateLimit-Remaining", "99".parse().unwrap());
    headers.insert("X-RateLimit-Reset", "1234567890".parse().unwrap());

    // `http` normalizes header names to lowercase, so the converted store
    // carries the lowercase names, and only those.
    let cs_headers = CaseSensitiveHeaderMap::from_header_map(&headers);
    assert_eq!(cs_headers.get("x-ratelimit-limit"), Some(&"100".to_string()));
    assert_eq!(cs_headers.get("x-ratelimit-remaining"), Some(&"99".to_string()));
    assert_eq!(cs_headers.get("x-ratelimit-reset"), Some(&"1234567890".to_string()));
    assert_eq!(cs_headers.get("X-RateLimit-Limit"), None);
}

#[test]
fn parse_header_map_newlines() {
    let map = CaseSensitiveHeaderMap::from_raw(
        "x-ratelimit-limit: 5000
x-ratelimit-remaining: 4987
x-ratelimit-reset: 1350085394
",
    )
    .unwrap();

    assert_eq!(map.get("x-ratelimit-limit"), Some(&"5000".to_string()));
    assert_eq!(map.get("x-ratelimit-remaining"), Some(&"4987".to_string()));
    assert_eq!(map.get("x-ratelimit-reset"), Some(&"1350085394".to_string()));
    assert_eq!(map.get("x-ratelimit-used"), None);
}

#[test]
fn raw_ingestion_rejects_line_without_colon() {
    let r = CaseSensitiveHeaderMap::from_raw("x-ratelimit-limit 5000\n");
    assert!(matches!(r, Err(Error::HeaderWithoutColon)));

    // An empty line between headers has no colon either.
    let r = CaseSensitiveHeaderMap::from_raw("a: 1\n\nb: 2\n");
    assert!(matches!(r, Err(Error::HeaderWithoutColon)));
}

#[test]
fn lenient_ingestion_skips_line_without_colon() {
    let map = CaseSensitiveHeaderMap::from_str("junk\nx-ratelimit-limit: 5000\n").unwrap();
    assert_eq!(map.get("x-ratelimit-limit"), Some(&"5000".to_string()));
    assert_eq!(map.get("junk"), None);
}

#[test]
fn from_entries_inserts_in_order() {
    let entries = vec![
        ("A".to_string(), "1".to_string()),
        ("b".to_string(), "2".to_string()),
        ("A".to_string(), "3".to_string()),
    ];
    let map = CaseSensitiveHeaderMap::from_entries(&entries);
    // The later entry under the same exact name wins.
    assert_eq!(map.get("A"), Some(&"3".to_string()));
    assert_eq!(map.get("b"), Some(&"2".to_string()));
    assert_eq!(map.get("a"), None);
}

#[test]
fn insert_and_get_are_case_sensitive() {
    let mut map = CaseSensitiveHeaderMap::new();
    assert_eq!(map.insert("Retry-After".to_string(), "10".to_string()), None);
    assert_eq!(map.get("Retry-After"), Some(&"10".to_string()));
    assert_eq!(map.get("retry-after"), None);
    // A second insert under the same exact name replaces and returns the
    // earlier value.
    assert_eq!(
        map.insert("Retry-After".to_string(), "20".to_string()),
        Some("10".to_string())
    );
    assert_eq!(map.get("Retry-After"), Some(&"20".to_string()));
}

#[test]
fn values_are_trimmed_names_are_not() {
    let map = CaseSensitiveHeaderMap::parse_lenient("A:   7  \n B: 1\n");
    assert_eq!(map.get("A"), Some(&"7".to_string()));
    // The name keeps its leading whitespace exactly as given.
    assert_eq!(map.get("B"), None);
    assert_eq!(map.get(" B"), Some(&"1".to_string()));
}
