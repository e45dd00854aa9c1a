//! Reset times and the multi-format reset-time decoder.
//!
//! A reset time is either a countdown in seconds or an absolute calendar
//! instant, which this crate carries as a unix timestamp in seconds. The
//! calendar computations themselves (date grammar parsing, calendar range)
//! are the `time` crate's; the trusted items below name what they return.
use vstd::prelude::*;

use crate::convert::{is_digit, spec_parse_i64, spec_parse_usize, to_i64, to_usize};
use crate::error::Error;

verus! {

/// The lowest unix timestamp that the `time` crate represents as a calendar
/// instant (the first second of the year -9999).
pub const MIN_TIMESTAMP: i64 = -377705116800;

/// The highest unix timestamp that the `time` crate represents as a calendar
/// instant (the last second of the year 9999).
pub const MAX_TIMESTAMP: i64 = 253402300799;

/// The kind of rate limit reset time.
///
/// There are different ways to denote rate limits reset times. Some vendors
/// use seconds, others use a timestamp format for example. This enum lists
/// all known variants.
#[derive(Copy, Clone, Debug, PartialEq, Eq, Structural)]
pub enum ResetTimeKind {
    /// Number of seconds until rate limit is lifted.
    Seconds,
    /// Unix timestamp when rate limit will be lifted.
    Timestamp,
    /// RFC 2822 date when rate limit will be lifted.
    ImfFixdate,
    /// ISO 8601 date when rate limit will be lifted.
    Iso8601,
}

/// Reset time of rate limiting.
///
/// There are different variants on how to specify reset times in rate limit
/// headers. The most common ones are seconds and datetime; an absolute
/// instant is carried as a unix timestamp in seconds, UTC.
#[derive(Copy, Clone, Debug, PartialEq, Eq, Structural)]
pub enum ResetTime {
    /// Number of seconds until rate limit is lifted.
    Seconds(usize),
    /// Instant when rate limit will be lifted, as a unix timestamp.
    DateTime(i64),
}

/// What `time`'s RFC 2822 parser returns for a header value: the wall time
/// it reads, taken as UTC, as a unix timestamp, or nothing when the value
/// does not conform to the grammar. A function of the characters alone.
pub uninterp spec fn rfc2822_timestamp(s: Seq<char>) -> Option<i64>;

/// Relies on `time::PrimitiveDateTime::parse` with the RFC 2822 format
/// (the HTTP IMF-fixdate grammar): its result depends on the input
/// characters alone; the parsed wall time is taken as UTC.
#[verifier::external_body]
pub(crate) fn parse_rfc2822(s: &str) -> (r: Option<i64>)
    ensures
        r == rfc2822_timestamp(s@),
{
    match time::PrimitiveDateTime::parse(s, &time::format_description::well_known::Rfc2822) {
        Ok(d) => Some(d.assume_utc().unix_timestamp()),
        Err(_) => None,
    }
}

/// What `time`'s ISO 8601 parser returns for a header value: the wall time
/// it reads, taken as UTC, as a unix timestamp, or nothing when the value
/// does not conform to the grammar. A function of the characters alone.
pub uninterp spec fn iso8601_timestamp(s: Seq<char>) -> Option<i64>;

/// Relies on `time::PrimitiveDateTime::parse` with the ISO 8601 parsing
/// configuration: its result depends on the input characters alone; the
/// parsed wall time is taken as UTC.
#[verifier::external_body]
fn parse_iso8601(s: &str) -> (r: Option<i64>)
    ensures
        r == iso8601_timestamp(s@),
{
    match time::PrimitiveDateTime::parse(
        s,
        &time::format_description::well_known::Iso8601::PARSING,
    ) {
        Ok(d) => Some(d.assume_utc().unix_timestamp()),
        Err(_) => None,
    }
}

/// Relies on `time::OffsetDateTime::now_utc`: the clock reading is a valid
/// calendar instant, so its timestamp lies in the representable range.
#[verifier::external_body]
pub(crate) fn now_unix() -> (r: i64)
    ensures
        MIN_TIMESTAMP <= r <= MAX_TIMESTAMP,
{
    time::OffsetDateTime::now_utc().unix_timestamp()
}

/// The shape of the fixed compact ISO 8601 profile `YYYYMMDDTHHMMSSZ`:
/// eight digits, a literal `T`, six digits, a literal `Z`.
pub open spec fn is_compact_iso8601(s: Seq<char>) -> bool {
    &&& s.len() == 16
    &&& forall|i: int| 0 <= i < 8 ==> is_digit(#[trigger] s[i])
    &&& s[8] == 'T'
    &&& forall|i: int| 9 <= i < 15 ==> is_digit(#[trigger] s[i])
    &&& s[15] == 'Z'
}

/// Whether a header value has the shape of the compact ISO 8601 profile.
fn has_compact_iso8601_shape(s: &str) -> (r: bool)
    ensures
        r == is_compact_iso8601(s@),
{
    let len = s.unicode_len();
    if len != 16 {
        return false;
    }
    if s.get_char(8) != 'T' || s.get_char(15) != 'Z' {
        return false;
    }
    let mut i: usize = 0;
    while i < 15
        invariant
            0 <= i <= 15,
            len == 16,
            len == s@.len(),
            forall|j: int| 0 <= j < i && j < 8 ==> is_digit(#[trigger] s@[j]),
            forall|j: int| 9 <= j < i ==> is_digit(#[trigger] s@[j]),
        decreases 15 - i,
    {
        if i != 8 {
            let u = s.get_char(i) as u32;
            if u < 48 || u > 57 {
                return false;
            }
        }
        i = i + 1;
    }
    true
}

/// The decode of one header value under a declared reset-time encoding.
pub open spec fn spec_decode(s: Seq<char>, kind: ResetTimeKind) -> Result<ResetTime, Error> {
    match kind {
        ResetTimeKind::Seconds => match spec_parse_usize(s) {
            Some(n) => Ok(ResetTime::Seconds(n)),
            None => Err(Error::InvalidValue),
        },
        ResetTimeKind::Timestamp => match spec_parse_i64(s) {
            Some(ts) => if MIN_TIMESTAMP <= ts && ts <= MAX_TIMESTAMP {
                Ok(ResetTime::DateTime(ts))
            } else {
                Err(Error::InvalidTimeRange)
            },
            None => Err(Error::InvalidValue),
        },
        ResetTimeKind::ImfFixdate => match rfc2822_timestamp(s) {
            Some(ts) => Ok(ResetTime::DateTime(ts)),
            None => Err(Error::DateParseError),
        },
        ResetTimeKind::Iso8601 => if is_compact_iso8601(s) {
            match iso8601_timestamp(s) {
                Some(ts) => Ok(ResetTime::DateTime(ts)),
                None => Err(Error::DateParseError),
            }
        } else {
            Err(Error::DateParseError)
        },
    }
}

/// The number of seconds from `now` until the reset: the countdown itself
/// for a countdown, and for an absolute instant the signed difference to
/// `now` wrapped into an unsigned 64-bit value.
pub open spec fn spec_normalized(rt: ResetTime, now: i64) -> int {
    match rt {
        ResetTime::Seconds(n) => n as int,
        ResetTime::DateTime(ts) => if ts - now >= 0 {
            ts - now
        } else {
            0x10000000000000000 + (ts - now)
        },
    }
}

/// The number of whole seconds from `now` until the reset, as a signed
/// value, negative for an instant already past.
pub open spec fn spec_duration(rt: ResetTime, now: i64) -> int {
    match rt {
        ResetTime::Seconds(n) => n as int,
        ResetTime::DateTime(ts) => ts - now,
    }
}

/// The duration to `now`, clamped to the bounds of a signed 64-bit count.
pub open spec fn spec_duration_clamped(rt: ResetTime, now: i64) -> int {
    if spec_duration(rt, now) > i64::MAX {
        i64::MAX as int
    } else if spec_duration(rt, now) < i64::MIN {
        i64::MIN as int
    } else {
        spec_duration(rt, now)
    }
}

impl ResetTime {
    /// Decodes a header value under the encoding `kind`.
    ///
    /// - `Seconds`: a trimmed non-negative decimal count.
    /// - `Timestamp`: a trimmed signed decimal unix timestamp, rejected with
    ///   `InvalidTimeRange` when it lies outside the representable calendar
    ///   range.
    /// - `ImfFixdate`: an RFC 2822 date, assumed UTC.
    /// - `Iso8601`: an ISO 8601 date in the fixed compact profile
    ///   `YYYYMMDDTHHMMSSZ`, assumed UTC; any other shape is rejected.
    pub fn new(value: &str, kind: ResetTimeKind) -> (r: Result<Self, Error>)
        ensures
            r == spec_decode(value@, kind),
    {
        match kind {
            ResetTimeKind::Seconds => match to_usize(value) {
                Ok(n) => Ok(ResetTime::Seconds(n)),
                Err(e) => Err(e),
            },
            ResetTimeKind::Timestamp => match to_i64(value) {
                Ok(ts) => if MIN_TIMESTAMP <= ts && ts <= MAX_TIMESTAMP {
                    Ok(ResetTime::DateTime(ts))
                } else {
                    Err(Error::InvalidTimeRange)
                },
                Err(e) => Err(e),
            },
            ResetTimeKind::ImfFixdate => match parse_rfc2822(value) {
                Some(ts) => Ok(ResetTime::DateTime(ts)),
                None => Err(Error::DateParseError),
            },
            ResetTimeKind::Iso8601 => {
                if !has_compact_iso8601_shape(value) {
                    return Err(Error::DateParseError);
                }
                match parse_iso8601(value) {
                    Some(ts) => Ok(ResetTime::DateTime(ts)),
                    None => Err(Error::DateParseError),
                }
            },
        }
    }

    /// The number of seconds from `now` until the reset, exposed as an
    /// unsigned value: an instant already past wraps around, as the
    /// unsigned reading of the signed difference.
    pub fn seconds_at(&self, now: i64) -> (r: u64)
        ensures
            r as int == spec_normalized(*self, now),
    {
        match self {
            ResetTime::Seconds(n) => *n as u64,
            ResetTime::DateTime(ts) => {
                if *ts >= now {
                    ((*ts as i128) - (now as i128)) as u64
                } else {
                    let diff = (now as i128) - (*ts as i128);
                    let n = diff as u64;
                    (u64::MAX - n) + 1
                }
            },
        }
    }

    /// Get the number of seconds until the rate limit gets lifted, measured
    /// against the current wall clock for an absolute instant.
    pub fn seconds(&self) -> (r: u64)
        ensures
            self matches ResetTime::Seconds(n) ==> r == n,
            self matches ResetTime::DateTime(_) ==> exists|now: i64|
                #![auto]
                MIN_TIMESTAMP <= now <= MAX_TIMESTAMP && r as int == spec_normalized(*self, now),
    {
        let now = now_unix();
        self.seconds_at(now)
    }

    /// The number of whole seconds from `now` until the reset, as a signed
    /// count, saturated at the bounds of `i64`.
    pub fn duration_at(&self, now: i64) -> (r: i64)
        ensures
            r as int == spec_duration_clamped(*self, now),
    {
        match self {
            ResetTime::Seconds(n) => {
                if (*n as u64) > (i64::MAX as u64) {
                    i64::MAX
                } else {
                    *n as i64
                }
            },
            ResetTime::DateTime(ts) => {
                let diff = (*ts as i128) - (now as i128);
                if diff > i64::MAX as i128 {
                    i64::MAX
                } else if diff < i64::MIN as i128 {
                    i64::MIN
                } else {
                    diff as i64
                }
            },
        }
    }

    /// Convert reset time to a duration in whole seconds, measured against
    /// the current wall clock for an absolute instant.
    pub fn duration(&self) -> (r: i64)
        ensures
            self matches ResetTime::Seconds(n) ==> r as int == if n > i64::MAX {
                i64::MAX as int
            } else {
                n as int
            },
            self matches ResetTime::DateTime(_) ==> exists|now: i64|
                #![auto]
                MIN_TIMESTAMP <= now <= MAX_TIMESTAMP && r as int == spec_duration_clamped(
                    *self,
                    now,
                ),
    {
        let now = now_unix();
        self.duration_at(now)
    }
}

} // verus!
