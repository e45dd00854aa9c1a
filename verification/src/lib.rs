//! Extraction of standardized rate-limit information (request quota, remaining
//! quota, and reset time) from raw HTTP response headers.
//!
//! Different API vendors encode the same semantic information under different
//! header names and value encodings. This crate holds an ordered table of
//! known header-naming schemes, a matching algorithm that picks the correct
//! scheme for an unlabeled header blob, a multi-format reset-time decoder,
//! derived-limit arithmetic, and a precedence rule for choosing between the
//! structured quota headers and a single `Retry-After` header when both are
//! present.
use vstd::prelude::*;

pub mod casesensitive_headermap;
pub mod convert;
pub mod error;
pub mod laws;
pub mod reset_time;
pub mod retryafter;
pub mod rfc6585;
pub mod types;
pub mod variants;

pub use reset_time::ResetTime;
pub use types::Vendor;

use crate::casesensitive_headermap::CaseSensitiveHeaderMap;
use crate::error::Error;
use crate::reset_time::{now_unix, spec_normalized, MAX_TIMESTAMP, MIN_TIMESTAMP};

verus! {

/// Rate limit information, parsed from HTTP headers.
///
/// There are multiple ways to represent rate limit information in HTTP
/// headers; the two supported here are the structured quota headers of the
/// RFC 6585 / `draft-polli-ratelimit-headers-00` family and the single
/// generic `Retry-After` header.
#[derive(Copy, Clone, Debug, PartialEq, Eq)]
pub enum RateLimit {
    /// Rate limit information from the structured quota headers.
    Rfc6585(rfc6585::RateLimit),
    /// Rate limit information from the `Retry-After` header.
    RetryAfter(retryafter::RateLimit),
}

/// The combined resolution at the instant `now`: when both paths succeed,
/// the one whose reset lies the larger number of seconds from `now` wins
/// (the more conservative bound for a caller trying not to violate the
/// limit); when exactly one succeeds, that one; when both fail, the
/// structured path's error.
pub open spec fn spec_combined(h: Map<Seq<char>, Seq<char>>, now: i64) -> Result<
    RateLimit,
    Error,
> {
    match (rfc6585::spec_resolve(h), retryafter::spec_retry_after(h)) {
        (Ok(a), Ok(b)) => if spec_normalized(a.reset, now) > spec_normalized(b.reset, now) {
            Ok(RateLimit::Rfc6585(a))
        } else {
            Ok(RateLimit::RetryAfter(b))
        },
        (Ok(a), Err(_)) => Ok(RateLimit::Rfc6585(a)),
        (Err(_), Ok(b)) => Ok(RateLimit::RetryAfter(b)),
        (Err(e), Err(_)) => Err(e),
    }
}

impl RateLimit {
    /// The reset time of the winning path.
    pub open spec fn spec_reset(self) -> ResetTime {
        match self {
            RateLimit::Rfc6585(rfc6585) => rfc6585.reset,
            RateLimit::RetryAfter(retryafter) => retryafter.reset,
        }
    }

    /// Combined resolution, with both reset times measured from the instant
    /// `now` (a unix timestamp in seconds).
    pub fn new_at(headers: &CaseSensitiveHeaderMap, now: i64) -> (r: Result<Self, Error>)
        ensures
            r == spec_combined(headers@, now),
    {
        let structured = rfc6585::RateLimit::new(headers);
        let retryafter = retryafter::RateLimit::new(headers);
        match (structured, retryafter) {
            (Ok(a), Ok(b)) => {
                if a.reset.seconds_at(now) > b.reset.seconds_at(now) {
                    Ok(RateLimit::Rfc6585(a))
                } else {
                    Ok(RateLimit::RetryAfter(b))
                }
            },
            (Ok(a), Err(_)) => Ok(RateLimit::Rfc6585(a)),
            (Err(_), Ok(b)) => Ok(RateLimit::RetryAfter(b)),
            (Err(e), Err(_)) => Err(e),
        }
    }

    /// Create a new `RateLimit` from a header store, with reset times
    /// measured from the current wall clock: the result is the combined
    /// resolution at some instant within the representable calendar range.
    ///
    /// Which of two successful paths wins depends on the instant of the
    /// call; everything else is independent of the clock.
    pub fn new(headers: &CaseSensitiveHeaderMap) -> (r: Result<Self, Error>)
        ensures
            exists|now: i64|
                #![auto]
                MIN_TIMESTAMP <= now <= MAX_TIMESTAMP && r == spec_combined(headers@, now),
    {
        let now = now_unix();
        Self::new_at(headers, now)
    }

    /// Get the `reset` time: the time when the rate limit will be reset.
    pub fn reset(&self) -> (r: ResetTime)
        ensures
            r == self.spec_reset(),
    {
        match self {
            RateLimit::Rfc6585(rfc6585) => rfc6585.reset,
            RateLimit::RetryAfter(retryafter) => retryafter.reset,
        }
    }

    /// Get the `limit` value: the maximum number of requests that can be
    /// made in the time window. Only the structured path knows it.
    pub fn limit(&self) -> (r: Option<usize>)
        ensures
            r == match self {
                RateLimit::Rfc6585(rfc6585) => Some(rfc6585.limit),
                RateLimit::RetryAfter(_) => None::<usize>,
            },
    {
        match self {
            RateLimit::Rfc6585(rfc6585) => Some(rfc6585.limit),
            RateLimit::RetryAfter(_) => None,
        }
    }

    /// Get the `remaining` value: the number of requests remaining in the
    /// current time window. Only the structured path knows it.
    pub fn remaining(&self) -> (r: Option<usize>)
        ensures
            r == match self {
                RateLimit::Rfc6585(rfc6585) => Some(rfc6585.remaining),
                RateLimit::RetryAfter(_) => None::<usize>,
            },
    {
        match self {
            RateLimit::Rfc6585(rfc6585) => Some(rfc6585.remaining),
            RateLimit::RetryAfter(_) => None,
        }
    }
}

impl core::str::FromStr for RateLimit {
    type Err = Error;

    /// Combined resolution over the lenient ingestion of a raw header block.
    fn from_str(map: &str) -> Result<Self, Error> {
        RateLimit::new(&CaseSensitiveHeaderMap::parse_lenient(map))
    }
}

} // verus!
