//! Tests of the structured-header resolver and the wrapped count parsers.
use std::str::FromStr;

use rate_limits::casesensitive_headermap::CaseSensitiveHeaderMap;
use rate_limits::error::Error;
use rate_limits::rfc6585::RateLimit;
use rate_limits::types::{Limit, Remaining};
use rate_limits::{ResetTime, Vendor};

#[test]
fn parse_limit_value() {
    let limit = Limit::new("  23 ").unwrap();
    assert_eq!(limit.count, 23);
}

#[test]
fn parse_invalid_limit_value() {
    assert!(Limit::new("foo").is_err());
    assert!(Limit::new("0 foo").is_err());
    assert!(Limit::new("bar 0").is_err());
}

#[test]
fn parse_remaining_value() {
    let remaining = Remaining::new("  23 ").unwrap();
    assert_eq!(remaining.count, 23);
}

#[test]
fn parse_invalid_remaining_value() {
    assert!(Remaining::new("foo").is_err());
    assert!(Remaining::new("0 foo").is_err());
    assert!(Remaining::new("bar 0").is_err());
}

#[test]
fn parse_github_headers() {
    let headers = "x-ratelimit-limit: 5000\nx-ratelimit-remaining: 4987\nx-ratelimit-reset: 1350085394\n";

    let rate = RateLimit::from_str(headers).unwrap();
    assert_eq!(rate.limit(), 5000);
    assert_eq!(rate.remaining(), 4987);
    assert_eq!(rate.reset(), ResetTime::DateTime(1350085394));
}

#[test]
fn parse_reddit_headers() {
    let headers = "X-Ratelimit-Used: 100\nX-Ratelimit-Remaining: 22\nX-Ratelimit-Reset: 30\n";

    let rate = RateLimit::from_str(headers).unwrap();
    assert_eq!(rate.limit(), 122);
    assert_eq!(rate.remaining(), 22);
    assert_eq!(rate.reset(), ResetTime::Seconds(30));
}

#[test]
fn parse_gitlab_headers() {
    let headers = "RateLimit-Limit: 60\nRateLimit-Observed: 67\nRateLimit-Remaining: 0\nRateLimit-Reset: 1609844400 \n";

    let rate = RateLimit::from_str(headers).unwrap();
    assert_eq!(rate.limit(), 60);
    assert_eq!(rate.remaining(), 0);
    assert_eq!(rate.reset(), ResetTime::DateTime(1609844400));
}

#[test]
fn scenario_github() {
    let rate = RateLimit::from_str(
        "x-ratelimit-limit: 5000\nx-ratelimit-remaining: 4987\nx-ratelimit-reset: 1350085394\n",
    )
    .unwrap();
    assert_eq!(rate.vendor, Vendor::Github);
    assert_eq!(rate.window, Some(3600));
    assert_eq!(rate.limit, 5000);
    assert_eq!(rate.remaining, 4987);
    assert_eq!(rate.reset, ResetTime::DateTime(1350085394));
}

#[test]
fn scenario_reddit() {
    let rate = RateLimit::from_str(
        "X-Ratelimit-Used: 100\nX-Ratelimit-Remaining: 22\nX-Ratelimit-Reset: 30\n",
    )
    .unwrap();
    assert_eq!(rate.vendor, Vendor::Reddit);
    assert_eq!(rate.window, Some(600));
    assert_eq!(rate.limit, 122);
}

#[test]
fn scenario_gitlab_limit_header_beats_observed() {
    // Gitlab names both a limit header and a used header; the limit header
    // takes precedence over deriving the limit from the observed count.
    let rate = RateLimit::from_str(
        "RateLimit-Limit: 60\nRateLimit-Observed: 67\nRateLimit-Remaining: 0\nRateLimit-Reset: 1609844400\n",
    )
    .unwrap();
    assert_eq!(rate.vendor, Vendor::Gitlab);
    assert_eq!(rate.limit, 60);
}

#[test]
fn scenario_gitlab_derives_limit_without_limit_header() {
    let rate = RateLimit::from_str(
        "RateLimit-Observed: 67\nRateLimit-Remaining: 0\nRateLimit-Reset: 1609844400\n",
    )
    .unwrap();
    assert_eq!(rate.vendor, Vendor::Gitlab);
    assert_eq!(rate.limit, 67);
}

#[test]
fn each_variant_resolves_to_its_own_vendor() {
    // A blob of exactly one variant's required headers resolves to that
    // variant's vendor.
    let cases: Vec<(&str, Vendor)> = vec![
        (
            "RateLimit-Limit: 10\nRatelimit-Remaining: 9\nRatelimit-Reset: 30\n",
            Vendor::Standard,
        ),
        (
            "X-Ratelimit-Used: 1\nX-Ratelimit-Remaining: 9\nX-Ratelimit-Reset: 30\n",
            Vendor::Reddit,
        ),
        (
            "x-ratelimit-limit: 10\nx-ratelimit-remaining: 9\nx-ratelimit-reset: 1350085394\n",
            Vendor::Github,
        ),
        (
            "x-rate-limit-limit: 10\nx-rate-limit-remaining: 9\nx-rate-limit-reset: 1350085394\n",
            Vendor::Twitter,
        ),
        (
            "X-RateLimit-Limit: 10\nX-RateLimit-Remaining: 9\nX-RateLimit-Reset: Tue, 15 Nov 1994 08:12:31 GMT\n",
            Vendor::Vimeo,
        ),
        (
            "RateLimit-Limit: 10\nRateLimit-Remaining: 9\nRateLimit-Reset: 1350085394\n",
            Vendor::Gitlab,
        ),
    ];
    for (headers, vendor) in cases {
        let rate = RateLimit::from_str(headers).unwrap();
        assert_eq!(rate.vendor, vendor);
    }
}

#[test]
fn akamai_headers_match_vimeo_first() {
    // Akamai's header names overlap Vimeo's except for the reset header, and
    // Vimeo stands earlier in the registry: a blob of exactly Akamai's
    // required headers matches Vimeo and then misses Vimeo's reset header.
    let r = RateLimit::from_str(
        "X-RateLimit-Limit: 10\nX-RateLimit-Remaining: 9\nX-RateLimit-Next: 2021-01-05T13:00:00Z\n",
    );
    assert!(matches!(r, Err(Error::MissingReset)));
}

#[test]
fn case_separates_standard_from_github() {
    let github = RateLimit::from_str(
        "x-ratelimit-limit: 10\nx-ratelimit-remaining: 9\nx-ratelimit-reset: 1350085394\n",
    )
    .unwrap();
    let standard = RateLimit::from_str(
        "RateLimit-Limit: 10\nRatelimit-Remaining: 9\nRatelimit-Reset: 30\n",
    )
    .unwrap();
    assert_eq!(github.vendor, Vendor::Github);
    assert_eq!(standard.vendor, Vendor::Standard);
    assert_ne!(github.vendor, standard.vendor);
}

#[test]
fn derived_limit_is_exact_sum() {
    let map = CaseSensitiveHeaderMap::parse_lenient(
        "X-Ratelimit-Used: 4294967295\nX-Ratelimit-Remaining: 705032704\nX-Ratelimit-Reset: 1\n",
    );
    let rate = RateLimit::new(&map).unwrap();
    assert_eq!(rate.limit, 4294967295 + 705032704);
    assert_eq!(rate.remaining, 705032704);
}
