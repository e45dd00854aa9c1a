//! The structured-header resolver: rate limit headers in the RFC 6585 /
//! `draft-polli-ratelimit-headers-00` family.
//!
//! Given a header store, the resolver walks the variant registry in order,
//! matches the first variant whose remaining header is present, and reads
//! limit, remaining and reset through that one variant. All lookups are
//! scoped to the matched variant, never scanned independently across all
//! variants: independent scans can splice one vendor's remaining count with
//! another vendor's reset encoding when header sets partially overlap.
use vstd::prelude::*;

use crate::casesensitive_headermap::CaseSensitiveHeaderMap;
use crate::convert::spec_parse_usize;
use crate::error::Error;
use crate::reset_time::{spec_decode, ResetTime};
use crate::types::{Limit, RateLimitVariant, Remaining, Used, VariantModel, Vendor};
use crate::variants::{all_variants, registry};

verus! {

/// HTTP rate limits as parsed from header values.
#[derive(Copy, Clone, Debug, PartialEq, Eq)]
pub struct RateLimit {
    /// The maximum number of requests allowed in the time window.
    pub limit: usize,
    /// The number of requests remaining in the time window.
    pub remaining: usize,
    /// The time at which the rate limit will be reset.
    pub reset: ResetTime,
    /// The time window until the rate limit is lifted, in seconds. It is
    /// optional, because it might not be given, in which case it needs to
    /// be inferred from the environment.
    pub window: Option<u64>,
    /// Predicted vendor based on rate limit header.
    pub vendor: Vendor,
}

/// The position, from `i` on, of the first variant whose remaining header
/// is present in the store.
pub open spec fn match_idx_from(h: Map<Seq<char>, Seq<char>>, i: int) -> Option<int>
    decreases registry().len() - i,
{
    if i < 0 || i >= registry().len() {
        None
    } else if h.contains_key(registry()[i].remaining_header) {
        Some(i)
    } else {
        match_idx_from(h, i + 1)
    }
}

/// The position of the first variant whose remaining header is present in
/// the store.
pub open spec fn match_idx(h: Map<Seq<char>, Seq<char>>) -> Option<int> {
    match_idx_from(h, 0)
}

/// `match_idx` skips any prefix of variants whose remaining headers are all
/// absent from the store.
pub proof fn lemma_match_idx_skip(h: Map<Seq<char>, Seq<char>>, i: int)
    requires
        0 <= i <= registry().len(),
        forall|j: int| 0 <= j < i ==> !h.contains_key(#[trigger] registry()[j].remaining_header),
    ensures
        match_idx(h) == match_idx_from(h, i),
    decreases i,
{
    if i > 0 {
        lemma_match_idx_skip(h, i - 1);
    }
}

/// The limit derived from the matched variant's used header: the sum of the
/// used and the remaining counts.
pub open spec fn spec_derived_limit(
    h: Map<Seq<char>, Seq<char>>,
    v: VariantModel,
    remaining: usize,
) -> Result<usize, Error> {
    match v.used_header {
        Some(name) => if h.contains_key(name) {
            match spec_parse_usize(h[name]) {
                Some(u) => if u + remaining <= usize::MAX {
                    Ok((u + remaining) as usize)
                } else {
                    Err(Error::InvalidValue)
                },
                None => Err(Error::InvalidValue),
            }
        } else {
            Err(Error::MissingLimit)
        },
        None => Err(Error::MissingLimit),
    }
}

/// The limit for the matched variant: the variant's limit header when that
/// header is present, else the sum of its used header and the remaining
/// count, else a missing-limit failure.
pub open spec fn spec_limit_for(
    h: Map<Seq<char>, Seq<char>>,
    v: VariantModel,
    remaining: usize,
) -> Result<usize, Error> {
    match v.limit_header {
        Some(name) => if h.contains_key(name) {
            match spec_parse_usize(h[name]) {
                Some(n) => Ok(n),
                None => Err(Error::InvalidValue),
            }
        } else {
            spec_derived_limit(h, v, remaining)
        },
        None => spec_derived_limit(h, v, remaining),
    }
}

/// The reset time for the matched variant, decoded under the variant's own
/// encoding.
pub open spec fn spec_reset_for(h: Map<Seq<char>, Seq<char>>, v: VariantModel) -> Result<
    ResetTime,
    Error,
> {
    if h.contains_key(v.reset_header) {
        spec_decode(h[v.reset_header], v.reset_kind)
    } else {
        Err(Error::MissingReset)
    }
}

/// The whole structured-header resolution: the first variant whose remaining
/// header is present decides every further lookup.
pub open spec fn spec_resolve(h: Map<Seq<char>, Seq<char>>) -> Result<RateLimit, Error> {
    match match_idx(h) {
        None => Err(Error::MissingRemaining),
        Some(i) => {
            let v = registry()[i];
            match spec_parse_usize(h[v.remaining_header]) {
                None => Err(Error::InvalidValue),
                Some(rem) => match spec_limit_for(h, v, rem) {
                    Err(e) => Err(e),
                    Ok(lim) => match spec_reset_for(h, v) {
                        Err(e) => Err(e),
                        Ok(reset) => Ok(
                            RateLimit {
                                limit: lim,
                                remaining: rem,
                                reset,
                                window: v.window,
                                vendor: v.vendor,
                            },
                        ),
                    },
                },
            }
        },
    }
}

/// The limit taken from the used header of `v`, plus the remaining count.
fn derived_limit(
    headers: &CaseSensitiveHeaderMap,
    v: &RateLimitVariant,
    remaining: Remaining,
) -> (r: Result<usize, Error>)
    ensures
        r == spec_derived_limit(headers@, v@, remaining.count),
{
    match &v.used_header {
        Some(name) => match headers.get(name.as_str()) {
            Some(value) => match Used::new(value.as_str()) {
                Ok(u) => {
                    if remaining.count <= usize::MAX - u.count {
                        Ok(u.count + remaining.count)
                    } else {
                        // The derived sum does not fit the count type.
                        Err(Error::InvalidValue)
                    }
                },
                Err(e) => Err(e),
            },
            None => Err(Error::MissingLimit),
        },
        None => Err(Error::MissingLimit),
    }
}

impl RateLimit {
    /// Extracts rate limits from a case-sensitive header store.
    ///
    /// There are different header names for various websites: Github, Vimeo,
    /// Twitter and others have their own. Without additional context, the
    /// parsing is done on a best-effort basis against the variant registry,
    /// in registry order, and every lookup is scoped to the one variant
    /// whose remaining header matched first.
    pub fn new(headers: &CaseSensitiveHeaderMap) -> (r: Result<Self, Error>)
        ensures
            r == spec_resolve(headers@),
    {
        let variants = all_variants();
        let n = variants.len();
        let mut i: usize = 0;
        while i < n
            invariant
                0 <= i <= n,
                n == registry().len(),
                variants@.len() == n,
                forall|k: int| 0 <= k < n ==> #[trigger] variants@[k]@ == registry()[k],
                forall|j: int|
                    0 <= j < i ==> !headers@.contains_key(
                        #[trigger] registry()[j].remaining_header,
                    ),
            decreases n - i,
        {
            let v = &variants[i];
            if let Some(rem_value) = headers.get(v.remaining_header.as_str()) {
                proof {
                    lemma_match_idx_skip(headers@, i as int);
                }
                let remaining = match Remaining::new(rem_value.as_str()) {
                    Ok(r) => r,
                    Err(e) => return Err(e),
                };
                let limit: usize = match &v.limit_header {
                    Some(name) => match headers.get(name.as_str()) {
                        Some(value) => match Limit::new(value.as_str()) {
                            Ok(l) => l.count,
                            Err(e) => return Err(e),
                        },
                        None => match derived_limit(headers, v, remaining) {
                            Ok(l) => l,
                            Err(e) => return Err(e),
                        },
                    },
                    None => match derived_limit(headers, v, remaining) {
                        Ok(l) => l,
                        Err(e) => return Err(e),
                    },
                };
                let reset = match headers.get(v.reset_header.as_str()) {
                    Some(value) => match ResetTime::new(value.as_str(), v.reset_kind) {
                        Ok(r) => r,
                        Err(e) => return Err(e),
                    },
                    None => return Err(Error::MissingReset),
                };
                return Ok(
                    RateLimit {
                        limit,
                        remaining: remaining.count,
                        reset,
                        window: v.duration,
                        vendor: v.vendor,
                    },
                );
            }
            proof {
                assert(variants@[i as int]@ == registry()[i as int]);
            }
            i = i + 1;
        }
        proof {
            lemma_match_idx_skip(headers@, n as int);
        }
        Err(Error::MissingRemaining)
    }

    /// Get the number of requests allowed in the time window.
    pub fn limit(&self) -> (r: usize)
        ensures
            r == self.limit,
    {
        self.limit
    }

    /// Get the number of requests remaining in the time window.
    pub fn remaining(&self) -> (r: usize)
        ensures
            r == self.remaining,
    {
        self.remaining
    }

    /// Get the time at which the rate limit will be reset.
    pub fn reset(&self) -> (r: ResetTime)
        ensures
            r == self.reset,
    {
        self.reset
    }
}

impl core::str::FromStr for RateLimit {
    type Err = Error;

    /// Resolution over the lenient ingestion of a raw header block.
    fn from_str(map: &str) -> Result<Self, Error> {
        RateLimit::new(&CaseSensitiveHeaderMap::parse_lenient(map))
    }
}

} // verus!
