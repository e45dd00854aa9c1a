//! Verified conversion of header values (decimal strings) to integers.
//!
//! Header values carry counts and timestamps as decimal text, possibly
//! surrounded by whitespace. The functions here mirror the grammar of Rust's
//! integer parsing: an optional sign followed by one or more ASCII digits,
//! rejecting anything else or any value that does not fit the target type.
use vstd::prelude::*;
use vstd::arithmetic::div_mod::{lemma_fundamental_div_mod, lemma_mod_bound};

use crate::error::Error;

verus! {

/// The whitespace characters stripped from both ends of a header value.
pub open spec fn is_space_char(c: char) -> bool {
    c == ' ' || c == '\t' || c == '\n' || c == '\r' || c == '\u{000B}' || c == '\u{000C}'
}

/// The given sequence with its leading whitespace removed.
pub open spec fn spec_trim_start(s: Seq<char>) -> Seq<char>
    decreases s.len(),
{
    if s.len() == 0 {
        s
    } else if is_space_char(s[0]) {
        spec_trim_start(s.drop_first())
    } else {
        s
    }
}

/// The given sequence with its trailing whitespace removed.
pub open spec fn spec_trim_end(s: Seq<char>) -> Seq<char>
    decreases s.len(),
{
    if s.len() == 0 {
        s
    } else if is_space_char(s.last()) {
        spec_trim_end(s.drop_last())
    } else {
        s
    }
}

/// The given sequence with surrounding whitespace removed.
pub open spec fn spec_trim(s: Seq<char>) -> Seq<char> {
    spec_trim_end(spec_trim_start(s))
}

/// An ASCII decimal digit.
pub open spec fn is_digit(c: char) -> bool {
    '0' as u32 <= c as u32 && c as u32 <= '9' as u32
}

/// The numeric value of an ASCII decimal digit.
pub open spec fn digit_value(c: char) -> int {
    c as u32 - '0' as u32
}

/// A non-empty sequence of ASCII decimal digits.
pub open spec fn is_digit_seq(s: Seq<char>) -> bool {
    s.len() > 0 && forall|i: int| 0 <= i < s.len() ==> is_digit(#[trigger] s[i])
}

/// The value of a sequence of ASCII decimal digits, most significant first.
pub open spec fn seq_to_int(s: Seq<char>) -> int
    decreases s.len(),
{
    if s.len() == 0 {
        0
    } else {
        seq_to_int(s.drop_last()) * 10 + digit_value(s.last())
    }
}

proof fn lemma_seq_to_int_nonneg(s: Seq<char>)
    requires
        forall|i: int| 0 <= i < s.len() ==> is_digit(#[trigger] s[i]),
    ensures
        seq_to_int(s) >= 0,
    decreases s.len(),
{
    if s.len() > 0 {
        lemma_seq_to_int_nonneg(s.drop_last());
    }
}

proof fn lemma_seq_to_int_prefix_le(s: Seq<char>, m: int)
    requires
        0 <= m <= s.len(),
        forall|i: int| 0 <= i < s.len() ==> is_digit(#[trigger] s[i]),
    ensures
        seq_to_int(s.subrange(0, m)) <= seq_to_int(s),
    decreases s.len() - m,
{
    if m == s.len() {
        assert(s.subrange(0, m) =~= s);
    } else {
        let p = s.subrange(0, m + 1);
        assert(p.drop_last() =~= s.subrange(0, m));
        lemma_seq_to_int_nonneg(s.subrange(0, m));
        assert(seq_to_int(s.subrange(0, m)) <= seq_to_int(p));
        lemma_seq_to_int_prefix_le(s, m + 1);
    }
}

/// Whether extending the decimal accumulator `acc` with digit `d` would
/// exceed `bound`; the test avoids computing `acc * 10 + d` itself.
proof fn lemma_extend_overflows(acc: int, d: int, bound: int)
    requires
        0 <= acc,
        0 <= d <= 9,
        0 < bound,
    ensures
        (acc > bound / 10 || (acc == bound / 10 && d > bound % 10)) <==> acc * 10 + d > bound,
{
    lemma_fundamental_div_mod(bound, 10);
    lemma_mod_bound(bound, 10);
}

/// Whether a character is one of the whitespace characters that trimming
/// removes.
fn is_space(c: char) -> (r: bool)
    ensures
        r == is_space_char(c),
{
    c == ' ' || c == '\t' || c == '\n' || c == '\r' || c == '\u{000B}' || c == '\u{000C}'
}

proof fn lemma_trim_start_at(s: Seq<char>, a: int)
    requires
        0 <= a <= s.len(),
        forall|j: int| 0 <= j < a ==> is_space_char(#[trigger] s[j]),
        a == s.len() || !is_space_char(s[a]),
    ensures
        spec_trim_start(s) == s.subrange(a, s.len() as int),
    decreases a,
{
    if a == 0 {
        assert(spec_trim_start(s) =~= s.subrange(0, s.len() as int));
    } else {
        let t = s.drop_first();
        lemma_trim_start_at(t, a - 1);
        assert(t.subrange(a - 1, t.len() as int) =~= s.subrange(a, s.len() as int));
    }
}

proof fn lemma_trim_end_at(s: Seq<char>, b: int)
    requires
        0 <= b <= s.len(),
        forall|j: int| b <= j < s.len() ==> is_space_char(#[trigger] s[j]),
        b == 0 || !is_space_char(s[b - 1]),
    ensures
        spec_trim_end(s) == s.subrange(0, b),
    decreases s.len() - b,
{
    if b == s.len() {
        assert(spec_trim_end(s) =~= s.subrange(0, b));
    } else {
        let t = s.drop_last();
        lemma_trim_end_at(t, b);
        assert(t.subrange(0, b) =~= s.subrange(0, b));
    }
}

/// The slice of `s` with surrounding whitespace removed.
pub fn trim(s: &str) -> (r: &str)
    ensures
        r@ == spec_trim(s@),
{
    let len = s.unicode_len();
    let mut a: usize = 0;
    loop
        invariant
            a <= len,
            len == s@.len(),
            forall|j: int| 0 <= j < a ==> is_space_char(#[trigger] s@[j]),
        ensures
            a <= len,
            forall|j: int| 0 <= j < a ==> is_space_char(#[trigger] s@[j]),
            a == len || !is_space_char(s@[a as int]),
        decreases len - a,
    {
        if a >= len {
            break ;
        }
        if !is_space(s.get_char(a)) {
            break ;
        }
        a = a + 1;
    }
    // `a` is the first index that holds a non-whitespace character.
    let mut b: usize = len;
    loop
        invariant
            a <= b <= len,
            len == s@.len(),
            forall|j: int| b <= j < len ==> is_space_char(#[trigger] s@[j]),
        ensures
            a <= b <= len,
            forall|j: int| b <= j < len ==> is_space_char(#[trigger] s@[j]),
            b == a || !is_space_char(s@[b - 1]),
        decreases b,
    {
        if b <= a {
            break ;
        }
        if !is_space(s.get_char(b - 1)) {
            break ;
        }
        b = b - 1;
    }
    proof {
        lemma_trim_start_at(s@, a as int);
        let t = s@.subrange(a as int, len as int);
        lemma_trim_end_at(t, b - a);
        assert(t.subrange(0, b - a) =~= s@.subrange(a as int, b as int));
    }
    s.substring_char(a, b)
}

/// The digits of a header value read as an unsigned count: surrounding
/// whitespace and an optional `+` sign removed.
pub open spec fn unsigned_digits(s: Seq<char>) -> Seq<char> {
    let t = spec_trim(s);
    if t.len() > 0 && t[0] == '+' {
        t.drop_first()
    } else {
        t
    }
}

/// The parse of a header value as an unsigned count: surrounding whitespace
/// removed, an optional `+` sign, then one or more ASCII decimal digits whose
/// value fits in `usize`.
pub open spec fn spec_parse_usize(s: Seq<char>) -> Option<usize> {
    let ds = unsigned_digits(s);
    if is_digit_seq(ds) && seq_to_int(ds) <= usize::MAX {
        Some(seq_to_int(ds) as usize)
    } else {
        None
    }
}

/// The result of converting a header value to a `usize` count.
pub open spec fn spec_to_usize(s: Seq<char>) -> Result<usize, Error> {
    match spec_parse_usize(s) {
        Some(n) => Ok(n),
        None => Err(Error::InvalidValue),
    }
}

/// Parses a trimmed decimal string as a non-negative count.
pub fn to_usize(value: &str) -> (r: Result<usize, Error>)
    ensures
        r == spec_to_usize(value@),
{
    let t = trim(value);
    let len = t.unicode_len();
    let start: usize = if len > 0 && t.get_char(0) == '+' {
        1
    } else {
        0
    };
    let ghost ds = unsigned_digits(value@);
    proof {
        assert(ds =~= t@.subrange(start as int, len as int));
    }
    if start >= len {
        // No digits at all.
        return Err(Error::InvalidValue);
    }
    let mut acc: usize = 0;
    let mut i: usize = start;
    while i < len
        invariant
            start <= i <= len,
            len == t@.len(),
            start < len,
            t@ == spec_trim(value@),
            ds == unsigned_digits(value@),
            ds == t@.subrange(start as int, len as int),
            forall|j: int| start <= j < i ==> is_digit(#[trigger] t@[j]),
            acc == seq_to_int(t@.subrange(start as int, i as int)),
        decreases len - i,
    {
        let c = t.get_char(i);
        let u = c as u32;
        if u < 48 || u > 57 {
            proof {
                assert(ds[i - start] == t@[i as int]);
                assert(!is_digit(ds[i - start]));
            }
            return Err(Error::InvalidValue);
        }
        let d = (u - 48) as usize;
        proof {
            lemma_extend_overflows(acc as int, d as int, usize::MAX as int);
        }
        if acc > usize::MAX / 10 || (acc == usize::MAX / 10 && d > usize::MAX % 10) {
            // Any continuation of these digits is too large for `usize`.
            proof {
                if is_digit_seq(ds) {
                    assert(t@.subrange(start as int, i + 1).drop_last() =~= t@.subrange(
                        start as int,
                        i as int,
                    ));
                    assert(t@.subrange(start as int, i + 1) =~= ds.subrange(0, i + 1 - start));
                    lemma_seq_to_int_prefix_le(ds, i + 1 - start);
                }
            }
            return Err(Error::InvalidValue);
        }
        proof {
            assert(t@.subrange(start as int, i + 1).drop_last() =~= t@.subrange(
                start as int,
                i as int,
            ));
        }
        acc = acc * 10 + d;
        i = i + 1;
    }
    proof {
        assert(t@.subrange(start as int, len as int) =~= ds);
        assert(forall|j: int| 0 <= j < ds.len() ==> is_digit(#[trigger] ds[j]));
    }
    Ok(acc)
}

/// The parse of a header value as a signed 64-bit integer: surrounding
/// whitespace removed, an optional `+` or `-` sign, then one or more ASCII
/// decimal digits whose signed value fits in `i64`.
pub open spec fn spec_parse_i64(s: Seq<char>) -> Option<i64> {
    let neg = spec_is_negative(s);
    let ds = signed_digits(s);
    if is_digit_seq(ds) {
        if neg && -seq_to_int(ds) >= i64::MIN {
            Some((-seq_to_int(ds)) as i64)
        } else if !neg && seq_to_int(ds) <= i64::MAX {
            Some(seq_to_int(ds) as i64)
        } else {
            None
        }
    } else {
        None
    }
}

/// Whether a header value carries a leading minus sign after trimming.
pub open spec fn spec_is_negative(s: Seq<char>) -> bool {
    let t = spec_trim(s);
    t.len() > 0 && t[0] == '-'
}

/// The digits of a header value read as a signed integer: surrounding
/// whitespace and an optional `+` or `-` sign removed.
pub open spec fn signed_digits(s: Seq<char>) -> Seq<char> {
    let t = spec_trim(s);
    if t.len() > 0 && (t[0] == '+' || t[0] == '-') {
        t.drop_first()
    } else {
        t
    }
}

/// The result of converting a header value to an `i64`.
pub open spec fn spec_to_i64(s: Seq<char>) -> Result<i64, Error> {
    match spec_parse_i64(s) {
        Some(n) => Ok(n),
        None => Err(Error::InvalidValue),
    }
}

/// Parses a trimmed decimal string as a signed 64-bit integer.
pub fn to_i64(value: &str) -> (r: Result<i64, Error>)
    ensures
        r == spec_to_i64(value@),
{
    let t = trim(value);
    let len = t.unicode_len();
    let mut neg = false;
    let mut start: usize = 0;
    if len > 0 {
        let c0 = t.get_char(0);
        if c0 == '+' {
            start = 1;
        } else if c0 == '-' {
            neg = true;
            start = 1;
        }
    }
    let ghost ds = signed_digits(value@);
    proof {
        assert(ds =~= t@.subrange(start as int, len as int));
    }
    if start >= len {
        // No digits at all.
        return Err(Error::InvalidValue);
    }
    // The magnitude bound: 2^63 for a negative value, 2^63 - 1 otherwise.
    let bound: u64 = if neg {
        9223372036854775808u64
    } else {
        9223372036854775807u64
    };
    let mut acc: u64 = 0;
    let mut i: usize = start;
    while i < len
        invariant
            start <= i <= len,
            len == t@.len(),
            start < len,
            t@ == spec_trim(value@),
            ds == signed_digits(value@),
            neg == spec_is_negative(value@),
            ds == t@.subrange(start as int, len as int),
            bound == if neg {
                9223372036854775808u64
            } else {
                9223372036854775807u64
            },
            forall|j: int| start <= j < i ==> is_digit(#[trigger] t@[j]),
            acc == seq_to_int(t@.subrange(start as int, i as int)),
            acc <= bound,
        decreases len - i,
    {
        let c = t.get_char(i);
        let u = c as u32;
        if u < 48 || u > 57 {
            proof {
                assert(ds[i - start] == t@[i as int]);
                assert(!is_digit(ds[i - start]));
            }
            return Err(Error::InvalidValue);
        }
        let d = (u - 48) as u64;
        proof {
            lemma_extend_overflows(acc as int, d as int, bound as int);
        }
        if acc > bound / 10 || (acc == bound / 10 && d > bound % 10) {
            // Any continuation of these digits is out of range for `i64`.
            proof {
                if is_digit_seq(ds) {
                    assert(t@.subrange(start as int, i + 1).drop_last() =~= t@.subrange(
                        start as int,
                        i as int,
                    ));
                    assert(t@.subrange(start as int, i + 1) =~= ds.subrange(0, i + 1 - start));
                    lemma_seq_to_int_prefix_le(ds, i + 1 - start);
                }
            }
            return Err(Error::InvalidValue);
        }
        proof {
            assert(t@.subrange(start as int, i + 1).drop_last() =~= t@.subrange(
                start as int,
                i as int,
            ));
        }
        acc = acc * 10 + d;
        i = i + 1;
    }
    proof {
        assert(t@.subrange(start as int, len as int) =~= ds);
        assert(forall|j: int| 0 <= j < ds.len() ==> is_digit(#[trigger] ds[j]));
    }
    if neg {
        if acc == 0 {
            Ok(0)
        } else {
            Ok(-((acc - 1) as i64) - 1)
        }
    } else {
        Ok(acc as i64)
    }
}

} // verus!
