//! The request/response pipeline: the classification of an HTTP response by
//! its status code, and the uniform handling of one remote call's outcome.
//!
//! The vendor API signals success with one fixed status code. Any other
//! status is either one of a fixed set of error-eligible codes — for which a
//! vendor error envelope `{"error":{"code":<int>,"message":<string>}}` is
//! decoded when possible — or an unknown failure tagged with the call's name
//! and the status code.
use vstd::prelude::*;

use crate::errors::Error;

verus! {

/// The one status code with which the vendor API signals success.
pub const SUCCESS_STATUS: u16 = 200;

/// An HTTP response as the transport hands it back: the status code, and the
/// body text, or `None` where the body could not be read.
#[derive(Debug, Clone, PartialEq, Eq)]
pub struct ApiResponse {
    pub status: u16,
    pub body: Option<String>,
}

/// The outcome of one transport send: a response, or a transport-level
/// failure before any response was received.
#[derive(Debug, Clone, PartialEq, Eq)]
pub enum SendOutcome {
    Delivered(ApiResponse),
    Failed { message: String },
}

/// The decoded vendor error envelope of a body text: `Some((code, message))`
/// where the body is a JSON object of the shape
/// `{"error":{"code":<integer>,"message":<string>}}`, `None` otherwise.
/// Decoding is a function of the body text alone.
pub uninterp spec fn envelope_of(body: Seq<char>) -> Option<(i64, Seq<char>)>;

/// Relies on serde_json (`from_str` into `Value`, `Value::get`,
/// `Value::as_i64`, `Value::as_str`): decodes the vendor error envelope
/// `{"error":{"code":<integer>,"message":<string>}}` from a body text; the
/// result depends on the body text alone.
#[verifier::external_body]
fn parse_error_envelope(body: &str) -> (r: Option<(i64, String)>)
    ensures
        (r is Some) == (envelope_of(body@) is Some),
        r matches Some(p) ==> (envelope_of(body@) matches Some(q) && p.0 == q.0 && p.1@ == q.1),
{
    let v: serde_json::Value = match serde_json::from_str(body) {
        Ok(v) => v,
        Err(_) => return None,
    };
    let details = v.get("error")?;
    let code = details.get("code")?.as_i64()?;
    let message = details.get("message")?.as_str()?.to_string();
    Some((code, message))
}

/// Whether a status code belongs to the fixed set for which the classifier
/// attempts to decode a vendor error envelope.
pub open spec fn spec_error_eligible(status: u16) -> bool {
    ||| status == 400
    ||| status == 401
    ||| status == 403
    ||| status == 404
    ||| status == 406
    ||| status == 500
}

/// Exec mirror of [`spec_error_eligible`].
pub fn error_eligible(status: u16) -> (r: bool)
    ensures
        r == spec_error_eligible(status),
{
    status == 400 || status == 401 || status == 403 || status == 404 || status == 406
        || status == 500
}

/// The three-way outcome of classifying a response.
pub enum Classified {
    /// The status equals the expected status: the response passes through.
    Pass,
    /// The status is error-eligible and the body held a well-formed vendor
    /// error envelope.
    ApiFailure { code: i64, message: Seq<char> },
    /// The status was unexpected, or the envelope was missing or malformed.
    Unknown { status_code: u16 },
}

/// The body of a response as a mathematical value: `None` where the body
/// could not be read.
pub open spec fn body_view(body: Option<String>) -> Option<Seq<char>> {
    match body {
        Some(b) => Some(b@),
        None => None,
    }
}

/// The classifier's three-way branch: pass on the expected status; a
/// decoded vendor failure on an error-eligible status with a well-formed
/// envelope; an unknown failure otherwise. For a status outside both sets
/// the result never depends on the body.
pub open spec fn classify(expected_status: u16, status: u16, body: Option<Seq<char>>) -> Classified {
    if status == expected_status {
        Classified::Pass
    } else if spec_error_eligible(status) {
        match body {
            Some(b) => match envelope_of(b) {
                Some(env) => Classified::ApiFailure { code: env.0, message: env.1 },
                None => Classified::Unknown { status_code: status },
            },
            None => Classified::Unknown { status_code: status },
        }
    } else {
        Classified::Unknown { status_code: status }
    }
}

impl ApiResponse {
    /// Classify this response against the expected success status: pass the
    /// response through unchanged, or turn it into the precise error the
    /// classifier assigns, tagged with the call's name.
    pub fn general_err_handler(self, name: &str, expected_status: u16) -> (r: Result<
        ApiResponse,
        Error,
    >)
        ensures
            ({
                match classify(expected_status, self.status, body_view(self.body)) {
                    Classified::Pass => r == Ok::<ApiResponse, Error>(self),
                    Classified::ApiFailure { code, message } => (r matches Err(
                        Error::ApiCallFailed { name: n, code: c, message: m },
                    ) && n@ == name@ && c == code && m@ == message),
                    Classified::Unknown { status_code } => (r matches Err(
                        Error::UnknownApiCallFailure { name: n, status_code: sc },
                    ) && n@ == name@ && sc == status_code),
                }
            }),
    {
        let status = self.status;
        if status == expected_status {
            Ok(self)
        } else if error_eligible(status) {
            match &self.body {
                Some(b) => match parse_error_envelope(b.as_str()) {
                    Some((code, message)) => Err(
                        Error::ApiCallFailed { name: name.to_string(), code, message },
                    ),
                    None => Err(
                        Error::UnknownApiCallFailure {
                            name: name.to_string(),
                            status_code: status,
                        },
                    ),
                },
                None => Err(
                    Error::UnknownApiCallFailure { name: name.to_string(), status_code: status },
                ),
            }
        } else {
            Err(Error::UnknownApiCallFailure { name: name.to_string(), status_code: status })
        }
    }
}

/// What one full pipeline pass returns for a given transport outcome: the
/// body text on the one success status, else the classified error.
pub open spec fn api_call_post(name: Seq<char>, outcome: SendOutcome, r: Result<
    String,
    Error,
>) -> bool {
    match outcome {
        SendOutcome::Failed { message } => (r matches Err(
            Error::FailedToSendRequest { message: m },
        ) && m@ == message@),
        SendOutcome::Delivered(resp) => match classify(
            SUCCESS_STATUS,
            resp.status,
            body_view(resp.body),
        ) {
            Classified::Pass => match resp.body {
                Some(b) => (r matches Ok(rb) && rb == b),
                None => r matches Err(Error::FailedToReadResponse),
            },
            Classified::ApiFailure { code, message } => (r matches Err(
                Error::ApiCallFailed { name: n, code: c, message: m },
            ) && n@ == name && c == code && m@ == message),
            Classified::Unknown { status_code } => (r matches Err(
                Error::UnknownApiCallFailure { name: n, status_code: sc },
            ) && n@ == name && sc == status_code),
        },
    }
}

/// One remote call's uniform handling, after the transport ran: a failed
/// send is a `FailedToSendRequest`; a response goes through the classifier;
/// on pass, an unreadable body is a `FailedToReadResponse`, else the body
/// text is the result, ready for the caller's typed decode.
pub fn api_call(name: &str, outcome: SendOutcome) -> (r: Result<String, Error>)
    ensures
        api_call_post(name@, outcome, r),
{
    match outcome {
        SendOutcome::Failed { message } => Err(Error::FailedToSendRequest { message }),
        SendOutcome::Delivered(resp) => match resp.general_err_handler(name, SUCCESS_STATUS) {
            Err(e) => Err(e),
            Ok(passed) => match passed.body {
                Some(b) => Ok(b),
                None => Err(Error::FailedToReadResponse),
            },
        },
    }
}

} // verus!
