//! The error taxonomy: every failure a pipeline operation can produce,
//! classified once and propagated as a typed value. A higher-level failure
//! keeps its underlying cause as a nested value rather than a string, so
//! callers can inspect both levels.
use vstd::prelude::*;

verus! {

/// Every failure the client core can report.
#[derive(Debug, PartialEq, Eq)]
pub enum Error {
    /// The token exchange failed; the nested value is the pipeline error
    /// that caused it.
    AuthenticationFailed { cause: Box<Error> },
    /// The transport failed before any response was received.
    FailedToSendRequest { message: String },
    /// A response arrived but its body could not be read.
    FailedToReadResponse,
    /// The body was read but did not parse as the expected payload.
    JsonDeserializationFailed,
    /// The remote API reported a logical failure with its own code and
    /// message.
    ApiCallFailed { name: String, code: i64, message: String },
    /// The response status was unexpected, or the error envelope itself
    /// failed to decode.
    UnknownApiCallFailure { name: String, status_code: u16 },
}

} // verus!
