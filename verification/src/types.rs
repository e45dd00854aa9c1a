//! The value types of the rate-limit engine: vendors, variants and the
//! wrapped counts parsed from header values.
use vstd::prelude::*;

use crate::convert::spec_parse_usize;
use crate::convert::to_usize;
use crate::error::Error;
use crate::reset_time::ResetTimeKind;

verus! {

/// Known vendors of rate limit headers.
///
/// Vendors use different rate limit header formats, which define how to
/// parse them. The vendor of a resolved rate limit is informational only:
/// it never steers control flow beyond variant selection.
#[derive(Copy, Clone, Debug, PartialEq, Eq, Structural)]
pub enum Vendor {
    /// Rate limit headers as defined in the `polli-ratelimit-headers-00`
    /// draft.
    Standard,
    /// Reddit rate limit headers.
    Reddit,
    /// Github API rate limit headers.
    Github,
    /// Twitter API rate limit headers.
    Twitter,
    /// Vimeo rate limit headers.
    Vimeo,
    /// Gitlab rate limit headers.
    Gitlab,
    /// Akamai rate limit headers.
    Akamai,
}

/// The mathematical shape of a variant: every header name a sequence of
/// characters, the window a number of seconds.
#[verifier::ext_equal]
pub ghost struct VariantModel {
    /// Vendor this scheme belongs to.
    pub vendor: Vendor,
    /// Length of the rate-limit window, in seconds, where the vendor
    /// documents one.
    pub window: Option<u64>,
    /// Name of the header carrying the request quota.
    pub limit_header: Option<Seq<char>>,
    /// Name of the header carrying the used-request count.
    pub used_header: Option<Seq<char>>,
    /// Name of the header carrying the remaining-request count.
    pub remaining_header: Seq<char>,
    /// Name of the header carrying the reset time.
    pub reset_header: Seq<char>,
    /// Encoding of the reset-time value.
    pub reset_kind: ResetTimeKind,
}

/// A variant defines all relevant fields for parsing headers from a given
/// vendor. Header names carry case sensitivity as literal strings.
#[derive(Clone, Debug)]
pub struct RateLimitVariant {
    /// Vendor of the rate limit headers (e.g. Github, Twitter, etc.).
    pub vendor: Vendor,
    /// Duration of the rate limit interval, in seconds.
    pub duration: Option<u64>,
    /// Header name for the maximum number of requests.
    pub limit_header: Option<String>,
    /// Header name for the number of used requests.
    pub used_header: Option<String>,
    /// Header name for the number of remaining requests.
    pub remaining_header: String,
    /// Header name for the reset time.
    pub reset_header: String,
    /// Kind of reset time.
    pub reset_kind: ResetTimeKind,
}

impl View for RateLimitVariant {
    type V = VariantModel;

    open spec fn view(&self) -> VariantModel {
        VariantModel {
            vendor: self.vendor,
            window: self.duration,
            limit_header: match self.limit_header {
                Some(s) => Some(s@),
                None => None,
            },
            used_header: match self.used_header {
                Some(s) => Some(s@),
                None => None,
            },
            remaining_header: self.remaining_header@,
            reset_header: self.reset_header@,
            reset_kind: self.reset_kind,
        }
    }
}

impl RateLimitVariant {
    /// Create a new rate limit variant.
    pub fn new(
        vendor: Vendor,
        duration: Option<u64>,
        limit_header: Option<String>,
        used_header: Option<String>,
        remaining_header: String,
        reset_header: String,
        reset_kind: ResetTimeKind,
    ) -> (r: Self)
        ensures
            r == (RateLimitVariant {
                vendor,
                duration,
                limit_header,
                used_header,
                remaining_header,
                reset_header,
                reset_kind,
            }),
    {
        RateLimitVariant { vendor, duration, limit_header, used_header, remaining_header, reset_header, reset_kind }
    }
}

/// A rate limit header carrying the maximum number of requests for the
/// given interval.
#[derive(Clone, Copy, Debug, PartialEq, Eq, Structural)]
pub struct Limit {
    /// Maximum number of requests for the given interval.
    pub count: usize,
}

/// The parse of a limit header value.
pub open spec fn spec_limit(s: Seq<char>) -> Result<Limit, Error> {
    match spec_parse_usize(s) {
        Some(n) => Ok(Limit { count: n }),
        None => Err(Error::InvalidValue),
    }
}

impl Limit {
    /// Parses a limit header value as a non-negative count.
    pub fn new(value: &str) -> (r: Result<Self, Error>)
        ensures
            r == spec_limit(value@),
    {
        match to_usize(value) {
            Ok(count) => Ok(Limit { count }),
            Err(e) => Err(e),
        }
    }
}

/// A rate limit header carrying the number of used requests.
#[derive(Clone, Copy, Debug, PartialEq, Eq, Structural)]
pub struct Used {
    /// Number of used requests for the given interval.
    pub count: usize,
}

/// The parse of a used-requests header value.
pub open spec fn spec_used(s: Seq<char>) -> Result<Used, Error> {
    match spec_parse_usize(s) {
        Some(n) => Ok(Used { count: n }),
        None => Err(Error::InvalidValue),
    }
}

impl Used {
    /// Parses a used-requests header value as a non-negative count.
    pub fn new(value: &str) -> (r: Result<Self, Error>)
        ensures
            r == spec_used(value@),
    {
        match to_usize(value) {
            Ok(count) => Ok(Used { count }),
            Err(e) => Err(e),
        }
    }
}

/// A rate limit header carrying the number of remaining requests.
#[derive(Clone, Copy, Debug, PartialEq, Eq, Structural)]
pub struct Remaining {
    /// Number of remaining requests for the given interval.
    pub count: usize,
}

/// The parse of a remaining-requests header value.
pub open spec fn spec_remaining(s: Seq<char>) -> Result<Remaining, Error> {
    match spec_parse_usize(s) {
        Some(n) => Ok(Remaining { count: n }),
        None => Err(Error::InvalidValue),
    }
}

impl Remaining {
    /// Parses a remaining-requests header value as a non-negative count.
    pub fn new(value: &str) -> (r: Result<Self, Error>)
        ensures
            r == spec_remaining(value@),
    {
        match to_usize(value) {
            Ok(count) => Ok(Remaining { count }),
            Err(e) => Err(e),
        }
    }
}

} // verus!
