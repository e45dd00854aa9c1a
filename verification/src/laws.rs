//! Laws of the resolution engine, stated and proved once and for all: which
//! vendor a blob of one variant's own headers resolves to, how letter case
//! separates vendors, the derived-limit arithmetic, and the determinism of
//! the reset-time decoder.
use vstd::prelude::*;

use crate::convert::spec_parse_usize;
use crate::error::Error;
use crate::reset_time::{spec_decode, ResetTime, ResetTimeKind};
use crate::rfc6585::{lemma_match_idx_skip, match_idx, spec_reset_for, spec_resolve};
use crate::types::{VariantModel, Vendor};
use crate::variants::registry;

verus! {

/// The header names a blob must carry for a variant to resolve: the
/// remaining and reset headers always, and the limit header where the
/// variant names one, else its used header.
pub open spec fn required_names(v: VariantModel) -> Set<Seq<char>> {
    let base = set![v.remaining_header, v.reset_header];
    match v.limit_header {
        Some(n) => base.insert(n),
        None => match v.used_header {
            Some(n) => base.insert(n),
            None => base,
        },
    }
}

/// Whether the values a blob carries under a variant's required headers are
/// all syntactically valid: the counts parse, a derived limit fits the
/// count type, and the reset value decodes under the variant's encoding.
pub open spec fn valid_required_values(h: Map<Seq<char>, Seq<char>>, v: VariantModel) -> bool {
    &&& spec_parse_usize(h[v.remaining_header]) is Some
    &&& spec_decode(h[v.reset_header], v.reset_kind) is Ok
    &&& match v.limit_header {
        Some(n) => spec_parse_usize(h[n]) is Some,
        None => match v.used_header {
            Some(n) => spec_parse_usize(h[n]) is Some && spec_parse_usize(h[n])->0
                + spec_parse_usize(h[v.remaining_header])->0 <= usize::MAX,
            None => false,
        },
    }
}

/// A header blob containing exactly one variant's required headers, each
/// with a syntactically valid value, resolves to that variant's own vendor:
/// scanning does not cross-match a different variant's headers.
///
/// The registry's last entry is left out: its header names are a subset of
/// an earlier entry's names but for the reset header, so a blob of exactly
/// its required headers matches the earlier variant and then misses that
/// variant's reset header.
pub proof fn lemma_variant_selects_own_vendor(h: Map<Seq<char>, Seq<char>>, i: int)
    requires
        0 <= i < registry().len() - 1,
        h.dom() == required_names(registry()[i]),
        valid_required_values(h, registry()[i]),
    ensures
        spec_resolve(h) matches Ok(r) && r.vendor == registry()[i].vendor,
{
    reveal_strlit("RateLimit-Limit");
    reveal_strlit("Ratelimit-Remaining");
    reveal_strlit("Ratelimit-Reset");
    reveal_strlit("X-Ratelimit-Used");
    reveal_strlit("X-Ratelimit-Remaining");
    reveal_strlit("X-Ratelimit-Reset");
    reveal_strlit("x-ratelimit-limit");
    reveal_strlit("x-ratelimit-remaining");
    reveal_strlit("x-ratelimit-reset");
    reveal_strlit("x-rate-limit-limit");
    reveal_strlit("x-rate-limit-remaining");
    reveal_strlit("x-rate-limit-reset");
    reveal_strlit("X-RateLimit-Limit");
    reveal_strlit("X-RateLimit-Remaining");
    reveal_strlit("X-RateLimit-Reset");
    reveal_strlit("RateLimit-Observed");
    reveal_strlit("RateLimit-Remaining");
    reveal_strlit("RateLimit-Reset");
    let v = registry()[i];
    assert(registry()[0].remaining_header == "Ratelimit-Remaining"@);
    assert(registry()[1].remaining_header == "X-Ratelimit-Remaining"@);
    assert(registry()[2].remaining_header == "x-ratelimit-remaining"@);
    assert(registry()[3].remaining_header == "x-rate-limit-remaining"@);
    assert(registry()[4].remaining_header == "X-RateLimit-Remaining"@);
    assert(registry()[5].remaining_header == "RateLimit-Remaining"@);
    if i == 1 {
        assert(v == registry()[1]);
        assert(v.reset_header == "X-Ratelimit-Reset"@);
        assert(v.used_header == Some("X-Ratelimit-Used"@));
        assert(!h.contains_key(registry()[0].remaining_header));
    } else if i == 2 {
        assert(v == registry()[2]);
        assert(v.reset_header == "x-ratelimit-reset"@);
        assert(v.limit_header == Some("x-ratelimit-limit"@));
        // Reddit's remaining header differs from Github's only by case.
        assert("X-Ratelimit-Remaining"@[2] != "x-ratelimit-remaining"@[2]);
        assert(!h.contains_key(registry()[0].remaining_header));
        assert(!h.contains_key(registry()[1].remaining_header));
    } else if i == 3 {
        assert(v == registry()[3]);
        assert(v.reset_header == "x-rate-limit-reset"@);
        assert(v.limit_header == Some("x-rate-limit-limit"@));
        assert(!h.contains_key(registry()[0].remaining_header));
        assert(!h.contains_key(registry()[1].remaining_header));
        assert(!h.contains_key(registry()[2].remaining_header));
    } else if i == 4 {
        assert(v == registry()[4]);
        assert(v.reset_header == "X-RateLimit-Reset"@);
        assert(v.limit_header == Some("X-RateLimit-Limit"@));
        // Reddit's and Github's remaining headers differ from Vimeo's only
        // by case.
        assert("X-Ratelimit-Remaining"@[6] != "X-RateLimit-Remaining"@[6]);
        assert("x-ratelimit-remaining"@[0] != "X-RateLimit-Remaining"@[0]);
        assert(!h.contains_key(registry()[0].remaining_header));
        assert(!h.contains_key(registry()[1].remaining_header));
        assert(!h.contains_key(registry()[2].remaining_header));
        assert(!h.contains_key(registry()[3].remaining_header));
    } else if i == 5 {
        assert(v == registry()[5]);
        assert(v.reset_header == "RateLimit-Reset"@);
        assert(v.limit_header == Some("RateLimit-Limit"@));
        // The standard draft's remaining header differs from Gitlab's only
        // by case.
        assert("Ratelimit-Remaining"@[4] != "RateLimit-Remaining"@[4]);
        assert(!h.contains_key(registry()[0].remaining_header));
        assert(!h.contains_key(registry()[1].remaining_header));
        assert(!h.contains_key(registry()[2].remaining_header));
        assert(!h.contains_key(registry()[3].remaining_header));
        assert(!h.contains_key(registry()[4].remaining_header));
    }
    assert forall|j: int| 0 <= j < i implies !h.contains_key(
        #[trigger] registry()[j].remaining_header,
    ) by {
        assert(j == 0 || j == 1 || j == 2 || j == 3 || j == 4);
    }
    assert(h.contains_key(v.remaining_header));
    lemma_match_idx_skip(h, i);
    assert(match_idx(h) == Some(i));
    assert(h.contains_key(v.reset_header));
    match v.limit_header {
        Some(n) => {
            assert(h.contains_key(n));
        },
        None => {
            match v.used_header {
                Some(n) => {
                    assert(h.contains_key(n));
                },
                None => {
                    assert(false);
                },
            }
        },
    }
}

/// Case sensitivity: a blob of Github's headers (all lowercase) and a blob
/// of the standard draft's headers (mixed case) resolve to different
/// vendors, although the names overlap in spelling modulo case.
pub proof fn lemma_case_sensitivity(h1: Map<Seq<char>, Seq<char>>, h2: Map<Seq<char>, Seq<char>>)
    requires
        h1.dom() == required_names(registry()[2]),
        valid_required_values(h1, registry()[2]),
        h2.dom() == required_names(registry()[0]),
        valid_required_values(h2, registry()[0]),
    ensures
        spec_resolve(h1) matches Ok(a) && a.vendor == Vendor::Github,
        spec_resolve(h2) matches Ok(b) && b.vendor == Vendor::Standard,
        (spec_resolve(h1)->Ok_0).vendor != (spec_resolve(h2)->Ok_0).vendor,
{
    lemma_variant_selects_own_vendor(h1, 2);
    lemma_variant_selects_own_vendor(h2, 0);
}

/// Derived-limit law: when the matched variant finds no limit header in the
/// store but does find its used header, holding `u`, beside a remaining
/// header holding `rem`, the resolved limit is exactly `u + rem`. Stated
/// for the sums that fit the count type; a larger sum is rejected.
pub proof fn lemma_derived_limit(h: Map<Seq<char>, Seq<char>>, i: int, u: usize, rem: usize)
    requires
        0 <= i < registry().len(),
        match_idx(h) == Some(i),
        spec_parse_usize(h[registry()[i].remaining_header]) == Some(rem),
        registry()[i].limit_header matches Some(n) ==> !h.contains_key(n),
        registry()[i].used_header matches Some(n) && h.contains_key(n) && spec_parse_usize(h[n])
            == Some(u),
        u + rem <= usize::MAX,
        spec_reset_for(h, registry()[i]) is Ok,
    ensures
        spec_resolve(h) matches Ok(r) && r.limit == u + rem && r.remaining == rem && r.vendor
            == registry()[i].vendor,
{
}

/// Reset-time decode idempotence: decoding the same literal value under the
/// same encoding twice yields equal results. Every result of
/// `ResetTime::new` equals `spec_decode` of its inputs, so any two such
/// results coincide.
pub proof fn lemma_decode_idempotent(
    s: Seq<char>,
    kind: ResetTimeKind,
    r1: Result<ResetTime, Error>,
    r2: Result<ResetTime, Error>,
)
    requires
        r1 == spec_decode(s, kind),
        r2 == spec_decode(s, kind),
    ensures
        r1 == r2,
{
}

} // verus!
