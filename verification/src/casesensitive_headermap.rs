//! A case-sensitive header store.
//!
//! HTTP headers are case-insensitive on the wire, but several vendors use
//! header names that differ only by letter case, and that case is the only
//! available disambiguator between their rate-limit schemes. This store
//! therefore keeps header names exactly as given and compares them by exact
//! string equality.
use vstd::prelude::*;

use crate::convert::{spec_trim, trim};
use crate::error::Error;

verus! {

/// Exact equality of two string slices, compared character by character.
pub fn str_eq(a: &str, b: &str) -> (r: bool)
    ensures
        r == (a@ == b@),
{
    let la = a.unicode_len();
    let lb = b.unicode_len();
    if la != lb {
        return false;
    }
    let mut i: usize = 0;
    while i < la
        invariant
            0 <= i <= la,
            la == a@.len(),
            la == b@.len(),
            forall|j: int| 0 <= j < i ==> a@[j] == b@[j],
        decreases la - i,
    {
        if a.get_char(i) != b.get_char(i) {
            return false;
        }
        i = i + 1;
    }
    proof {
        assert(a@ =~= b@);
    }
    true
}

/// The position of the first occurrence of `c` in `s`, or `s.len()` when `c`
/// does not occur.
pub open spec fn find_char(s: Seq<char>, c: char) -> nat
    decreases s.len(),
{
    if s.len() == 0 {
        0
    } else if s[0] == c {
        0
    } else {
        1 + find_char(s.drop_first(), c)
    }
}

proof fn lemma_find_char_at(s: Seq<char>, c: char, m: int)
    requires
        0 <= m <= s.len(),
        forall|j: int| 0 <= j < m ==> s[j] != c,
        m == s.len() || s[m] == c,
    ensures
        find_char(s, c) == m,
    decreases m,
{
    if s.len() == 0 {
    } else if m == 0 {
    } else {
        lemma_find_char_at(s.drop_first(), c, m - 1);
    }
}

/// A line's trailing carriage return, removed.
pub open spec fn strip_cr(l: Seq<char>) -> Seq<char> {
    if l.len() > 0 && l.last() == '\r' {
        l.drop_last()
    } else {
        l
    }
}

/// The lines of a raw header block: split at every newline, with a carriage
/// return stripped from the end of every newline-terminated line, and no
/// final empty line when the block ends with a newline.
pub open spec fn spec_lines(s: Seq<char>) -> Seq<Seq<char>>
    decreases s.len(),
{
    if s.len() == 0 {
        Seq::empty()
    } else {
        let i = find_char(s, '\n');
        if i >= s.len() {
            seq![s]
        } else {
            seq![strip_cr(s.subrange(0, i as int))] + spec_lines(
                s.subrange(i + 1 as int, s.len() as int),
            )
        }
    }
}

/// Whether a header line holds a colon separator.
pub open spec fn line_has_colon(l: Seq<char>) -> bool {
    find_char(l, ':') < l.len()
}

/// The header name of a line: everything before the first colon, case and
/// whitespace kept exactly as given.
pub open spec fn line_name(l: Seq<char>) -> Seq<char> {
    l.subrange(0, find_char(l, ':') as int)
}

/// The header value of a line: everything after the first colon, trimmed.
pub open spec fn line_value(l: Seq<char>) -> Seq<char> {
    spec_trim(l.subrange(find_char(l, ':') + 1 as int, l.len() as int))
}

/// The header store described by a sequence of lines, each line with a colon
/// inserted in order, each line without one skipped.
pub open spec fn ingest_lenient(lines: Seq<Seq<char>>) -> Map<Seq<char>, Seq<char>>
    decreases lines.len(),
{
    if lines.len() == 0 {
        Map::empty()
    } else {
        let m = ingest_lenient(lines.drop_last());
        let l = lines.last();
        if line_has_colon(l) {
            m.insert(line_name(l), line_value(l))
        } else {
            m
        }
    }
}

/// The store described by a list of name/value pairs inserted in order:
/// a later entry replaces an earlier value under the same exact name.
pub open spec fn map_of_entries(entries: Seq<(String, String)>) -> Map<Seq<char>, Seq<char>>
    decreases entries.len(),
{
    if entries.len() == 0 {
        Map::empty()
    } else {
        map_of_entries(entries.drop_last()).insert(entries.last().0@, entries.last().1@)
    }
}

/// The header store that lenient ingestion reads out of a raw header block.
pub open spec fn lenient_map(s: Seq<char>) -> Map<Seq<char>, Seq<char>> {
    ingest_lenient(spec_lines(s))
}

/// Whether some line of the raw header block has no colon separator.
pub open spec fn has_colonless_line(s: Seq<char>) -> bool {
    exists|i: int| 0 <= i < spec_lines(s).len() && !line_has_colon(#[trigger] spec_lines(s)[i])
}

/// The position of the first occurrence of `c` in `s`, or the length of `s`.
pub fn find_char_in(s: &str, c: char) -> (r: usize)
    ensures
        r == find_char(s@, c),
        r <= s@.len(),
{
    let len = s.unicode_len();
    let mut j: usize = 0;
    loop
        invariant
            0 <= j <= len,
            len == s@.len(),
            forall|k: int| 0 <= k < j ==> s@[k] != c,
        ensures
            0 <= j <= len,
            forall|k: int| 0 <= k < j ==> s@[k] != c,
            j == len || s@[j as int] == c,
        decreases len - j,
    {
        if j >= len {
            break ;
        }
        if s.get_char(j) == c {
            break ;
        }
        j = j + 1;
    }
    proof {
        lemma_find_char_at(s@, c, j as int);
    }
    j
}

/// The lines of a raw header block, split as `spec_lines` describes.
pub fn split_lines(s: &str) -> (r: Vec<String>)
    ensures
        r.deep_view() == spec_lines(s@),
{
    let len = s.unicode_len();
    let mut out: Vec<String> = Vec::new();
    let mut pos: usize = 0;
    proof {
        assert(s@.subrange(0, len as int) =~= s@);
        assert(out.deep_view() =~= Seq::<Seq<char>>::empty());
        assert(Seq::<Seq<char>>::empty() + spec_lines(s@) =~= spec_lines(s@));
    }
    while pos < len
        invariant
            0 <= pos <= len,
            len == s@.len(),
            spec_lines(s@) == out.deep_view() + spec_lines(s@.subrange(pos as int, len as int)),
        decreases len - pos,
    {
        let ghost pre = out.deep_view();
        let ghost suffix = s@.subrange(pos as int, len as int);
        let rest = s.substring_char(pos, len);
        let j_rel = find_char_in(rest, '\n');
        let j = pos + j_rel;
        if j_rel >= rest.unicode_len() {
            // The final line carries no newline: it is taken whole.
            let line = String::from_str(rest);
            out.push(line);
            proof {
                assert(spec_lines(suffix) =~= seq![suffix]);
                assert(out.deep_view() =~= pre + seq![suffix]);
                assert(s@.subrange(len as int, len as int) =~= Seq::<char>::empty());
                assert(pre + seq![suffix] + spec_lines(s@.subrange(len as int, len as int)) =~= pre
                    + spec_lines(suffix));
            }
            pos = len;
        } else {
            let line_end = if j > pos && s.get_char(j - 1) == '\r' {
                j - 1
            } else {
                j
            };
            let line = String::from_str(s.substring_char(pos, line_end));
            out.push(line);
            proof {
                assert(suffix.subrange(0, j_rel as int) =~= s@.subrange(pos as int, j as int));
                assert(strip_cr(suffix.subrange(0, j_rel as int)) =~= s@.subrange(
                    pos as int,
                    line_end as int,
                ));
                assert(suffix.subrange(j_rel + 1, suffix.len() as int) =~= s@.subrange(
                    j + 1,
                    len as int,
                ));
                assert(spec_lines(suffix) =~= seq![line@] + spec_lines(
                    s@.subrange(j + 1, len as int),
                ));
                assert(out.deep_view() =~= pre + seq![line@]);
                assert(pre + seq![line@] + spec_lines(s@.subrange(j + 1, len as int)) =~= pre
                    + spec_lines(suffix));
            }
            pos = j + 1;
        }
    }
    proof {
        assert(s@.subrange(pos as int, len as int) =~= Seq::<char>::empty());
        assert(out.deep_view() =~= out.deep_view() + spec_lines(Seq::<char>::empty()));
    }
    out
}

/// Splits one header line at its first colon and inserts it into `m`;
/// reports whether the line held a colon at all.
fn insert_line(m: &mut CaseSensitiveHeaderMap, line: &String) -> (r: bool)
    ensures
        r == line_has_colon(line@),
        final(m)@ == if line_has_colon(line@) {
            old(m)@.insert(line_name(line@), line_value(line@))
        } else {
            old(m)@
        },
{
    let l = line.as_str();
    let llen = l.unicode_len();
    let j = find_char_in(l, ':');
    if j < llen {
        let name = String::from_str(l.substring_char(0, j));
        let value = String::from_str(trim(l.substring_char(j + 1, llen)));
        m.insert(name, value);
        true
    } else {
        false
    }
}

/// The value paired with the first entry whose name reads `name`.
spec fn seq_lookup(s: Seq<(String, String)>, name: Seq<char>) -> Option<Seq<char>>
    decreases s.len(),
{
    if s.len() == 0 {
        None
    } else if s[0].0@ == name {
        Some(s[0].1@)
    } else {
        seq_lookup(s.drop_first(), name)
    }
}

proof fn lemma_seq_lookup_at(s: Seq<(String, String)>, name: Seq<char>, i: int)
    requires
        0 <= i <= s.len(),
        forall|j: int| 0 <= j < i ==> #[trigger] s[j].0@ != name,
        i == s.len() || s[i].0@ == name,
    ensures
        i == s.len() ==> seq_lookup(s, name) is None,
        i < s.len() ==> seq_lookup(s, name) == Some(s[i].1@),
    decreases i,
{
    if s.len() == 0 {
    } else if i == 0 {
    } else {
        lemma_seq_lookup_at(s.drop_first(), name, i - 1);
    }
}

/// A header store whose keys are compared by exact, case-sensitive string
/// equality.
///
/// Most header containers normalize names to one canonical case; this one
/// must not, because the letter case of otherwise identical names is what
/// tells some vendors' rate-limit headers apart.
#[derive(Clone, Debug)]
pub struct CaseSensitiveHeaderMap {
    entries: Vec<(String, String)>,
}

impl View for CaseSensitiveHeaderMap {
    type V = Map<Seq<char>, Seq<char>>;

    closed spec fn view(&self) -> Map<Seq<char>, Seq<char>> {
        Map::new(
            |k: Seq<char>| seq_lookup(self.entries@, k) is Some,
            |k: Seq<char>| seq_lookup(self.entries@, k)->0,
        )
    }
}

impl Default for CaseSensitiveHeaderMap {
    /// Creates an empty header store.
    fn default() -> (r: Self)
        ensures
            r@ == Map::<Seq<char>, Seq<char>>::empty(),
    {
        CaseSensitiveHeaderMap::new()
    }
}

impl CaseSensitiveHeaderMap {
    /// Creates an empty header store.
    pub fn new() -> (r: Self)
        ensures
            r@ == Map::<Seq<char>, Seq<char>>::empty(),
    {
        let r = CaseSensitiveHeaderMap { entries: Vec::new() };
        proof {
            assert(r@ =~= Map::<Seq<char>, Seq<char>>::empty());
        }
        r
    }

    /// Inserts a header, replacing and returning the value any earlier entry
    /// with exactly this name carried.
    pub fn insert(&mut self, name: String, value: String) -> (prev: Option<String>)
        ensures
            final(self)@ == old(self)@.insert(name@, value@),
            match prev {
                Some(v) => old(self)@.contains_key(name@) && v@ == old(self)@[name@],
                None => !old(self)@.contains_key(name@),
            },
    {
        let prev = match self.get(name.as_str()) {
            Some(v) => Some(v.clone()),
            None => None,
        };
        let ghost pre = self.entries@;
        self.entries.insert(0, (name, value));
        proof {
            assert(self.entries@.drop_first() =~= pre);
            assert forall|k: Seq<char>| true implies seq_lookup(self.entries@, k) == (if k
                == name@ {
                Some(value@)
            } else {
                seq_lookup(pre, k)
            }) by {
                assert(self.entries@.len() > 0);
            }
            assert(self@ =~= old(self)@.insert(name@, value@));
        }
        prev
    }

    /// Lenient ingestion of a newline-separated `"Name: value"` block.
    ///
    /// Each line is split at its first colon; the name keeps its exact case
    /// and surrounding whitespace, the value is trimmed. Lines without a
    /// colon (empty lines included) are skipped.
    pub fn parse_lenient(headers: &str) -> (r: CaseSensitiveHeaderMap)
        ensures
            r@ == lenient_map(headers@),
    {
        let lines = split_lines(headers);
        let mut m = CaseSensitiveHeaderMap::new();
        let n = lines.len();
        let mut i: usize = 0;
        while i < n
            invariant
                0 <= i <= n,
                n == lines@.len(),
                lines.deep_view() == spec_lines(headers@),
                m@ == ingest_lenient(lines.deep_view().subrange(0, i as int)),
            decreases n - i,
        {
            let line = &lines[i];
            proof {
                assert(lines.deep_view()[i as int] == line@);
            }
            insert_line(&mut m, line);
            proof {
                assert(lines.deep_view().subrange(0, i + 1).drop_last() =~= lines.deep_view()
                    .subrange(0, i as int));
                assert(lines.deep_view().subrange(0, i + 1).last() == line@);
            }
            i = i + 1;
        }
        proof {
            assert(lines.deep_view().subrange(0, n as int) =~= spec_lines(headers@));
        }
        m
    }

    /// Strict ingestion of a newline-separated `"Name: value"` block.
    ///
    /// Splits and trims exactly as [`Self::parse_lenient`] does, but a line
    /// without a colon separator (an empty line included) rejects the whole
    /// block.
    pub fn from_raw(raw: &str) -> (r: Result<CaseSensitiveHeaderMap, Error>)
        ensures
            has_colonless_line(raw@) ==> r == Err::<CaseSensitiveHeaderMap, Error>(
                Error::HeaderWithoutColon,
            ),
            !has_colonless_line(raw@) ==> (r matches Ok(m) && m@ == lenient_map(raw@)),
    {
        let lines = split_lines(raw);
        let mut m = CaseSensitiveHeaderMap::new();
        let n = lines.len();
        let mut i: usize = 0;
        while i < n
            invariant
                0 <= i <= n,
                n == lines@.len(),
                lines.deep_view() == spec_lines(raw@),
                m@ == ingest_lenient(lines.deep_view().subrange(0, i as int)),
                forall|j: int| 0 <= j < i ==> line_has_colon(#[trigger] lines.deep_view()[j]),
            decreases n - i,
        {
            let line = &lines[i];
            proof {
                assert(lines.deep_view()[i as int] == line@);
            }
            if !insert_line(&mut m, line) {
                return Err(Error::HeaderWithoutColon);
            }
            proof {
                assert(lines.deep_view().subrange(0, i + 1).drop_last() =~= lines.deep_view()
                    .subrange(0, i as int));
                assert(lines.deep_view().subrange(0, i + 1).last() == line@);
            }
            i = i + 1;
        }
        proof {
            assert(lines.deep_view().subrange(0, n as int) =~= spec_lines(raw@));
        }
        Ok(m)
    }

    /// Looks a header up by its exact, case-sensitive name.
    pub fn get(&self, k: &str) -> (r: Option<&String>)
        ensures
            match r {
                Some(v) => self@.contains_key(k@) && v@ == self@[k@],
                None => !self@.contains_key(k@),
            },
    {
        let n = self.entries.len();
        let mut i: usize = 0;
        while i < n
            invariant
                0 <= i <= n,
                n == self.entries@.len(),
                forall|j: int| 0 <= j < i ==> #[trigger] self.entries@[j].0@ != k@,
            decreases n - i,
        {
            let pair = &self.entries[i];
            if str_eq(pair.0.as_str(), k) {
                proof {
                    lemma_seq_lookup_at(self.entries@, k@, i as int);
                }
                return Some(&pair.1);
            }
            i = i + 1;
        }
        proof {
            lemma_seq_lookup_at(self.entries@, k@, n as int);
        }
        None
    }
}

#[verifier::external_type_specification]
#[verifier::external_body]
#[verifier::reject_recursive_types(T)]
pub struct ExHeaderMap<T>(http::HeaderMap<T>);

#[verifier::external_type_specification]
#[verifier::external_body]
pub struct ExHeaderValue(http::HeaderValue);

/// Relies on `http::HeaderMap::iter` to list each header name/value pair.
/// The `http` crate normalizes names to lowercase ASCII on insertion; values
/// are read lossily as UTF-8. Nothing about the listed pairs is assumed.
#[verifier::external_body]
fn header_map_entries(headers: &http::HeaderMap) -> Vec<(String, String)> {
    headers.iter().map(
        |(name, value)| (name.as_str().to_string(), String::from_utf8_lossy(value.as_bytes()).into_owned()),
    ).collect()
}

impl CaseSensitiveHeaderMap {
    /// Builds a store from a list of name/value pairs, inserting them in
    /// order: a later pair replaces an earlier value under the same exact
    /// name.
    pub fn from_entries(entries: &Vec<(String, String)>) -> (r: CaseSensitiveHeaderMap)
        ensures
            r@ == map_of_entries(entries@),
    {
        let mut m = CaseSensitiveHeaderMap::new();
        let n = entries.len();
        let mut i: usize = 0;
        while i < n
            invariant
                0 <= i <= n,
                n == entries@.len(),
                m@ == map_of_entries(entries@.subrange(0, i as int)),
            decreases n - i,
        {
            let name = entries[i].0.clone();
            let value = entries[i].1.clone();
            m.insert(name, value);
            proof {
                assert(entries@.subrange(0, i + 1).drop_last() =~= entries@.subrange(0, i as int));
                assert(entries@.subrange(0, i + 1).last() == entries@[i as int]);
            }
            i = i + 1;
        }
        proof {
            assert(entries@.subrange(0, n as int) =~= entries@);
        }
        m
    }

    /// Builds a case-sensitive store from an `http::HeaderMap`: the store
    /// holds exactly the entries the trusted listing hands back, inserted in
    /// order. Names arrive in the lowercase form that `http` normalizes them
    /// to; nothing further can be said over the opaque input map.
    pub fn from_header_map(headers: &http::HeaderMap) -> (r: CaseSensitiveHeaderMap) {
        let entries = header_map_entries(headers);
        CaseSensitiveHeaderMap::from_entries(&entries)
    }
}

impl core::str::FromStr for CaseSensitiveHeaderMap {
    type Err = Error;

    /// Lenient ingestion of a raw header block; never fails.
    fn from_str(headers: &str) -> Result<Self, Error> {
        Ok(CaseSensitiveHeaderMap::parse_lenient(headers))
    }
}

} // verus!
