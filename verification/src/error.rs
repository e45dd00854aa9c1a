//! The error taxonomy shared by every resolver in this crate.
use vstd::prelude::*;

verus! {

/// Error variants produced while extracting rate-limit information from
/// headers. Every error is terminal for the current input: nothing is
/// retried and no partial result is ever returned.
#[derive(Copy, Clone, Debug, PartialEq, Eq, Structural)]
pub enum Error {
    /// The matched variant names neither a limit header nor a used header
    /// that is present in the header store.
    MissingLimit,
    /// A used-requests header required by the matched variant is absent.
    MissingUsed,
    /// No variant's remaining header is present in the header store.
    MissingRemaining,
    /// The matched variant's reset header is absent.
    MissingReset,
    /// The `Retry-After` header is absent.
    MissingRetryAfter,
    /// The `Retry-After` value matched neither supported encoding.
    InvalidRetryAfter,
    /// A numeric header value failed integer parsing.
    InvalidValue,
    /// A syntactically valid integer is out of the representable calendar
    /// range.
    InvalidTimeRange,
    /// A date-formatted header value does not conform to the expected
    /// grammar.
    DateParseError,
    /// Raw header-block ingestion encountered a line without a colon
    /// separator.
    HeaderWithoutColon,
    /// The variant registry could not be accessed.
    RegistryUnavailable,
}

} // verus!
