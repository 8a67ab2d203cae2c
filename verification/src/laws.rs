//! The classifier's laws, stated once over the spec function [`classify`]
//! that the executable pipeline's contracts are written against.
use vstd::prelude::*;

use crate::client::authenticate_post;
use crate::client::token_fields_of;
use crate::client::AuthenticatedClient;
use crate::errors::Error;
use crate::pipeline::body_view;
use crate::pipeline::classify;
use crate::pipeline::envelope_of;
use crate::pipeline::spec_error_eligible;
use crate::pipeline::ApiResponse;
use crate::pipeline::Classified;
use crate::pipeline::SendOutcome;
use crate::pipeline::SUCCESS_STATUS;

verus! {

/// For every credential pair, a token exchange whose transport outcome is a
/// success-status response with a body that decodes as a token yields an
/// authenticated client whose token fields equal exactly the decoded ones.
/// (That the unauthenticated client is consumed is enforced by the
/// signature of `UnauthenticatedClient::authenticate`, which takes it by
/// value.)
pub proof fn lemma_authenticate_yields_decoded_token(
    resp: ApiResponse,
    r: Result<AuthenticatedClient, Error>,
    access_token: Seq<char>,
    refresh_token: Seq<char>,
    expires_in: u64,
)
    requires
        authenticate_post(SendOutcome::Delivered(resp), r),
        resp.status == SUCCESS_STATUS,
        resp.body is Some,
        token_fields_of(resp.body->0@) == Some((access_token, refresh_token, expires_in)),
    ensures
        r matches Ok(c) && c.token.access_token@ == access_token && c.token.refresh_token@
            == refresh_token && c.token.expires_in == expires_in,
{
    assert(classify(SUCCESS_STATUS, resp.status, body_view(resp.body)) is Pass);
}

/// A response whose status equals the expected status always passes through,
/// whatever its body: no error envelope is ever consulted for it.
pub proof fn lemma_expected_status_passes(
    expected_status: u16,
    status: u16,
    body: Option<Seq<char>>,
)
    requires
        status == expected_status,
    ensures
        classify(expected_status, status, body) is Pass,
{
}

/// A response with an error-eligible status and a well-formed vendor error
/// envelope is classified as an API failure carrying exactly the envelope's
/// code and message.
pub proof fn lemma_envelope_becomes_api_failure(
    expected_status: u16,
    status: u16,
    body: Seq<char>,
    code: i64,
    message: Seq<char>,
)
    requires
        status != expected_status,
        spec_error_eligible(status),
        envelope_of(body) == Some((code, message)),
    ensures
        classify(expected_status, status, Some(body)) == (Classified::ApiFailure { code, message }),
{
}

/// A response with an error-eligible status but a malformed or unreadable
/// envelope body degrades to an unknown failure carrying the status code.
pub proof fn lemma_malformed_envelope_degrades(
    expected_status: u16,
    status: u16,
    body: Option<Seq<char>>,
)
    requires
        status != expected_status,
        spec_error_eligible(status),
        body matches Some(b) ==> envelope_of(b) is None,
    ensures
        classify(expected_status, status, body) == (Classified::Unknown { status_code: status }),
{
}

/// A response whose status is neither the expected one nor error-eligible is
/// an unknown failure at once: the outcome is the same for every body, so
/// no envelope decoding is ever attempted.
pub proof fn lemma_unexpected_status_is_unknown(
    expected_status: u16,
    status: u16,
    body: Option<Seq<char>>,
)
    requires
        status != expected_status,
        !spec_error_eligible(status),
    ensures
        classify(expected_status, status, body) == (Classified::Unknown { status_code: status }),
{
}

} // verus!
