//! The `Retry-After` resolver.
//!
//! `Retry-After` is the single generic HTTP header for rate limiting: its
//! value is either an HTTP date or a number of seconds. The lookup is
//! case-sensitive and checks the canonical capitalization `Retry-After`
//! first, then the all-lowercase form the name takes after normalization.
use vstd::prelude::*;

use crate::casesensitive_headermap::CaseSensitiveHeaderMap;
use crate::convert::{spec_parse_usize, to_usize};
use crate::error::Error;
use crate::reset_time::{parse_rfc2822, rfc2822_timestamp, ResetTime};

verus! {

/// The `Retry-After` value in the store: the canonical capitalization
/// first, then the all-lowercase form.
pub open spec fn spec_retry_lookup(h: Map<Seq<char>, Seq<char>>) -> Option<Seq<char>> {
    if h.contains_key("Retry-After"@) {
        Some(h["Retry-After"@])
    } else if h.contains_key("retry-after"@) {
        Some(h["retry-after"@])
    } else {
        None
    }
}

/// The whole `Retry-After` resolution: an RFC 2822 date when the value
/// parses as one, else a countdown in seconds, else a failure.
pub open spec fn spec_retry_after(h: Map<Seq<char>, Seq<char>>) -> Result<RateLimit, Error> {
    match spec_retry_lookup(h) {
        None => Err(Error::MissingRetryAfter),
        Some(s) => match rfc2822_timestamp(s) {
            Some(ts) => Ok(RateLimit { reset: ResetTime::DateTime(ts) }),
            None => match spec_parse_usize(s) {
                Some(n) => Ok(RateLimit { reset: ResetTime::Seconds(n) }),
                None => Err(Error::InvalidRetryAfter),
            },
        },
    }
}

/// HTTP rate limits as parsed from a `Retry-After` header value.
#[derive(Copy, Clone, Debug, PartialEq, Eq, Structural)]
pub struct RateLimit {
    /// Time at which the rate limit will be reset.
    pub reset: ResetTime,
}

impl RateLimit {
    /// Rate limit resolution based on the `Retry-After` header value: an
    /// RFC 2822 date is decoded first; a value that is no date falls back
    /// to a countdown in seconds.
    pub fn new(headers: &CaseSensitiveHeaderMap) -> (r: Result<Self, Error>)
        ensures
            r == spec_retry_after(headers@),
    {
        let value = match headers.get("Retry-After") {
            Some(v) => v,
            None => match headers.get("retry-after") {
                Some(v) => v,
                None => return Err(Error::MissingRetryAfter),
            },
        };
        match parse_rfc2822(value.as_str()) {
            Some(ts) => Ok(RateLimit { reset: ResetTime::DateTime(ts) }),
            None => match to_usize(value.as_str()) {
                Ok(n) => Ok(RateLimit { reset: ResetTime::Seconds(n) }),
                Err(_) => Err(Error::InvalidRetryAfter),
            },
        }
    }

    /// Get the time at which the rate limit will be reset.
    pub fn reset(&self) -> (r: ResetTime)
        ensures
            r == self.reset,
    {
        self.reset
    }
}

impl core::str::FromStr for RateLimit {
    type Err = Error;

    /// Resolution over the lenient ingestion of a raw header block.
    fn from_str(map: &str) -> Result<Self, Error> {
        RateLimit::new(&CaseSensitiveHeaderMap::parse_lenient(map))
    }
}

} // verus!
