//! The registry of known vendor header-naming schemes.
//!
//! The order of the entries is semantically significant: it is the tie-break
//! priority when a header blob could satisfy more than one variant. The
//! casing of header names is significant, to separate between different
//! vendors.
use vstd::prelude::*;

use crate::reset_time::ResetTimeKind;
use crate::types::{RateLimitVariant, VariantModel, Vendor};

verus! {

/// The registry contents, in priority order.
pub open spec fn registry() -> Seq<VariantModel> {
    seq![
        // Headers as defined in the `polli-ratelimit-headers-00` draft:
        // RateLimit-Limit holds the requests quota in the time window,
        // Ratelimit-Remaining the remaining quota, Ratelimit-Reset the time
        // remaining, in seconds.
        VariantModel {
            vendor: Vendor::Standard,
            window: None,
            limit_header: Some("RateLimit-Limit"@),
            used_header: None,
            remaining_header: "Ratelimit-Remaining"@,
            reset_header: "Ratelimit-Reset"@,
            reset_kind: ResetTimeKind::Seconds,
        },
        // Reddit: X-Ratelimit-Used requests used in this period,
        // X-Ratelimit-Remaining requests left, X-Ratelimit-Reset seconds to
        // the end of the period.
        VariantModel {
            vendor: Vendor::Reddit,
            window: Some(600u64),
            limit_header: None,
            used_header: Some("X-Ratelimit-Used"@),
            remaining_header: "X-Ratelimit-Remaining"@,
            reset_header: "X-Ratelimit-Reset"@,
            reset_kind: ResetTimeKind::Seconds,
        },
        // Github: x-ratelimit-limit requests permitted per hour,
        // x-ratelimit-remaining requests remaining, x-ratelimit-reset the
        // reset instant in UTC epoch seconds.
        VariantModel {
            vendor: Vendor::Github,
            window: Some(3600u64),
            limit_header: Some("x-ratelimit-limit"@),
            used_header: None,
            remaining_header: "x-ratelimit-remaining"@,
            reset_header: "x-ratelimit-reset"@,
            reset_kind: ResetTimeKind::Timestamp,
        },
        // Twitter: x-rate-limit-limit the ceiling for the endpoint,
        // x-rate-limit-remaining requests left in the 15-minute window,
        // x-rate-limit-reset the end of the window in UTC epoch seconds.
        VariantModel {
            vendor: Vendor::Twitter,
            window: Some(900u64),
            limit_header: Some("x-rate-limit-limit"@),
            used_header: None,
            remaining_header: "x-rate-limit-remaining"@,
            reset_header: "x-rate-limit-reset"@,
            reset_kind: ResetTimeKind::Timestamp,
        },
        // Vimeo: X-RateLimit-Limit responses per 60-second period,
        // X-RateLimit-Remaining responses left, X-RateLimit-Reset a datetime
        // value for the start of the next period.
        VariantModel {
            vendor: Vendor::Vimeo,
            window: Some(60u64),
            limit_header: Some("X-RateLimit-Limit"@),
            used_header: None,
            remaining_header: "X-RateLimit-Remaining"@,
            reset_header: "X-RateLimit-Reset"@,
            reset_kind: ResetTimeKind::ImfFixdate,
        },
        // Gitlab: RateLimit-Limit the quota per minute, RateLimit-Observed
        // requests already made, RateLimit-Remaining the remaining quota,
        // RateLimit-Reset a unix-time reset instant.
        VariantModel {
            vendor: Vendor::Gitlab,
            window: Some(60u64),
            limit_header: Some("RateLimit-Limit"@),
            used_header: Some("RateLimit-Observed"@),
            remaining_header: "RateLimit-Remaining"@,
            reset_header: "RateLimit-Reset"@,
            reset_kind: ResetTimeKind::Timestamp,
        },
        // Akamai: X-RateLimit-Limit of 60 requests per minute,
        // X-RateLimit-Remaining requests allowed during the period,
        // X-RateLimit-Next the ISO 8601 instant of the next allowed request.
        VariantModel {
            vendor: Vendor::Akamai,
            window: Some(60u64),
            limit_header: Some("X-RateLimit-Limit"@),
            used_header: None,
            remaining_header: "X-RateLimit-Remaining"@,
            reset_header: "X-RateLimit-Next"@,
            reset_kind: ResetTimeKind::Iso8601,
        },
    ]
}

/// The registry of variants, freshly built: idempotent, read-only content,
/// checked in order by the structured-header resolver.
pub fn all_variants() -> (r: Vec<RateLimitVariant>)
    ensures
        r@.len() == registry().len(),
        forall|i: int| 0 <= i < r@.len() ==> #[trigger] r@[i]@ == registry()[i],
{
    let mut v: Vec<RateLimitVariant> = Vec::new();
    v.push(
        RateLimitVariant::new(
            Vendor::Standard,
            None,
            Some(String::from_str("RateLimit-Limit")),
            None,
            String::from_str("Ratelimit-Remaining"),
            String::from_str("Ratelimit-Reset"),
            ResetTimeKind::Seconds,
        ),
    );
    v.push(
        RateLimitVariant::new(
            Vendor::Reddit,
            Some(600u64),
            None,
            Some(String::from_str("X-Ratelimit-Used")),
            String::from_str("X-Ratelimit-Remaining"),
            String::from_str("X-Ratelimit-Reset"),
            ResetTimeKind::Seconds,
        ),
    );
    v.push(
        RateLimitVariant::new(
            Vendor::Github,
            Some(3600u64),
            Some(String::from_str("x-ratelimit-limit")),
            None,
            String::from_str("x-ratelimit-remaining"),
            String::from_str("x-ratelimit-reset"),
            ResetTimeKind::Timestamp,
        ),
    );
    v.push(
        RateLimitVariant::new(
            Vendor::Twitter,
            Some(900u64),
            Some(String::from_str("x-rate-limit-limit")),
            None,
            String::from_str("x-rate-limit-remaining"),
            String::from_str("x-rate-limit-reset"),
            ResetTimeKind::Timestamp,
        ),
    );
    v.push(
        RateLimitVariant::new(
            Vendor::Vimeo,
            Some(60u64),
            Some(String::from_str("X-RateLimit-Limit")),
            None,
            String::from_str("X-RateLimit-Remaining"),
            String::from_str("X-RateLimit-Reset"),
            ResetTimeKind::ImfFixdate,
        ),
    );
    v.push(
        RateLimitVariant::new(
            Vendor::Gitlab,
            Some(60u64),
            Some(String::from_str("RateLimit-Limit")),
            Some(String::from_str("RateLimit-Observed")),
            String::from_str("RateLimit-Remaining"),
            String::from_str("RateLimit-Reset"),
            ResetTimeKind::Timestamp,
        ),
    );
    v.push(
        RateLimitVariant::new(
            Vendor::Akamai,
            Some(60u64),
            Some(String::from_str("X-RateLimit-Limit")),
            None,
            String::from_str("X-RateLimit-Remaining"),
            String::from_str("X-RateLimit-Next"),
            ResetTimeKind::Iso8601,
        ),
    );
    proof {
        assert(v@[0]@ =~= registry()[0]);
        assert(v@[1]@ =~= registry()[1]);
        assert(v@[2]@ =~= registry()[2]);
        assert(v@[3]@ =~= registry()[3]);
        assert(v@[4]@ =~= registry()[4]);
        assert(v@[5]@ =~= registry()[5]);
        assert(v@[6]@ =~= registry()[6]);
    }
    v
}

} // verus!
