//! The authentication state machine: an unauthenticated client holding
//! credentials is consumed by a successful token exchange and becomes an
//! authenticated client holding the token. No edge leads back, and only the
//! authenticated state offers data calls.
use vstd::prelude::*;

use crate::errors::Error;
use crate::pipeline::api_call;
use crate::pipeline::api_call_post;
use crate::pipeline::body_view;
use crate::pipeline::classify;
use crate::pipeline::Classified;
use crate::pipeline::SendOutcome;
use crate::pipeline::SUCCESS_STATUS;

verus! {

/// The decoded fields of a token-exchange response body: `Some((access
/// token, refresh token, lifetime in seconds))` where the body is a JSON
/// object holding string fields `access_token` and `refresh_token` and an
/// unsigned integer field `expires_in`, `None` otherwise. Decoding is a
/// function of the body text alone.
pub uninterp spec fn token_fields_of(body: Seq<char>) -> Option<(Seq<char>, Seq<char>, u64)>;

/// Relies on serde_json (`from_str` into `Value`, `Value::get`,
/// `Value::as_str`, `Value::as_u64`): decodes the token-exchange response
/// `{"access_token":<string>,"refresh_token":<string>,"expires_in":<integer>}`
/// from a body text; the result depends on the body text alone.
#[verifier::external_body]
fn parse_token_body(body: &str) -> (r: Option<(String, String, u64)>)
    ensures
        (r is Some) == (token_fields_of(body@) is Some),
        r matches Some(t) ==> (token_fields_of(body@) matches Some(u) && t.0@ == u.0 && t.1@ == u.1
            && t.2 == u.2),
{
    let v: serde_json::Value = match serde_json::from_str(body) {
        Ok(v) => v,
        Err(_) => return None,
    };
    let access_token = v.get("access_token")?.as_str()?.to_string();
    let refresh_token = v.get("refresh_token")?.as_str()?.to_string();
    let expires_in = v.get("expires_in")?.as_u64()?;
    Some((access_token, refresh_token, expires_in))
}

/// The immutable credential pair for the token exchange.
#[derive(Debug, Clone, PartialEq, Eq)]
pub struct ClientCredentials {
    pub client_id: String,
    pub client_secret: String,
}

/// An access token, with the refresh token and lifetime the vendor returned
/// beside it. Immutable after creation; the core does not manage expiry.
#[derive(Debug, Clone, PartialEq, Eq)]
pub struct Token {
    pub access_token: String,
    pub refresh_token: String,
    pub expires_in: u64,
}

/// The entry point: constructs a client in one of the two states.
pub struct NetatmoClient {}

/// A client that holds credentials but no token yet. Its only forward edge
/// is [`UnauthenticatedClient::authenticate`], which consumes it.
#[derive(Debug, Clone, PartialEq, Eq)]
pub struct UnauthenticatedClient {
    pub client_credentials: ClientCredentials,
}

/// A client that holds an access token; only this state offers data calls.
#[derive(Debug, Clone, PartialEq, Eq)]
pub struct AuthenticatedClient {
    pub token: Token,
}

impl NetatmoClient {
    /// Pure value construction of the unauthenticated state: no network
    /// activity.
    pub fn new(client_credentials: ClientCredentials) -> (r: UnauthenticatedClient)
        ensures
            r.client_credentials == client_credentials,
    {
        UnauthenticatedClient { client_credentials }
    }

    /// Direct construction of the authenticated state for callers that
    /// already hold a token. Performs no verification: an invalid token only
    /// surfaces as failures on later calls.
    pub fn with_token(token: Token) -> (r: AuthenticatedClient)
        ensures
            r.token == token,
    {
        AuthenticatedClient { token }
    }
}

/// The body text that one pipeline pass hands to the typed decode for a
/// given transport outcome: `Some` exactly where the classifier passes the
/// response and its body was readable.
pub open spec fn pipeline_success_body(outcome: SendOutcome) -> Option<Seq<char>> {
    match outcome {
        SendOutcome::Delivered(resp) => if classify(
            SUCCESS_STATUS,
            resp.status,
            body_view(resp.body),
        ) is Pass {
            body_view(resp.body)
        } else {
            None
        },
        SendOutcome::Failed { .. } => None,
    }
}

/// What the token exchange returns for a given transport outcome: on a
/// passed response whose body decodes as a token, an authenticated client
/// holding exactly the decoded fields; on a passed response with any other
/// body, an `AuthenticationFailed` caused by the failed decode; otherwise an
/// `AuthenticationFailed` whose cause is exactly the pipeline's own error.
pub open spec fn authenticate_post(outcome: SendOutcome, r: Result<
    AuthenticatedClient,
    Error,
>) -> bool {
    match pipeline_success_body(outcome) {
        Some(b) => match token_fields_of(b) {
            Some(tf) => (r matches Ok(c) && c.token.access_token@ == tf.0
                && c.token.refresh_token@ == tf.1 && c.token.expires_in == tf.2),
            None => (r matches Err(Error::AuthenticationFailed { cause })
                && *cause matches Error::JsonDeserializationFailed),
        },
        None => (r matches Err(Error::AuthenticationFailed { cause }) && api_call_post(
            "refresh_token"@,
            outcome,
            Err::<String, Error>(*cause),
        )),
    }
}

impl UnauthenticatedClient {
    /// The parameter mapping of the token exchange: the refresh token plus
    /// this client's credentials, under the vendor's fixed parameter names.
    pub fn auth_params(&self, refresh_token: &str) -> (r: Vec<(String, String)>)
        ensures
            r@.len() == 4,
            r@[0].0@ == "grant_type"@ && r@[0].1@ == "refresh_token"@,
            r@[1].0@ == "refresh_token"@ && r@[1].1@ == refresh_token@,
            r@[2].0@ == "client_id"@ && r@[2].1@ == self.client_credentials.client_id@,
            r@[3].0@ == "client_secret"@ && r@[3].1@ == self.client_credentials.client_secret@,
    {
        let mut r: Vec<(String, String)> = Vec::new();
        r.push(("grant_type".to_string(), "refresh_token".to_string()));
        r.push(("refresh_token".to_string(), refresh_token.to_string()));
        r.push(("client_id".to_string(), self.client_credentials.client_id.clone()));
        r.push(("client_secret".to_string(), self.client_credentials.client_secret.clone()));
        r
    }

    /// The one-way transition of the state machine: run the token exchange's
    /// transport outcome through the pipeline and, on success, consume this
    /// client into an authenticated one holding the decoded token. Every
    /// pipeline or decode failure is wrapped as `AuthenticationFailed`
    /// without discarding the underlying error.
    pub fn authenticate(self, outcome: SendOutcome) -> (r: Result<AuthenticatedClient, Error>)
        ensures
            authenticate_post(outcome, r),
    {
        match api_call("refresh_token", outcome) {
            Err(e) => Err(Error::AuthenticationFailed { cause: Box::new(e) }),
            Ok(body) => match parse_token_body(body.as_str()) {
                Some((access_token, refresh_token, expires_in)) => Ok(
                    AuthenticatedClient { token: Token { access_token, refresh_token, expires_in } },
                ),
                None => Err(
                    Error::AuthenticationFailed {
                        cause: Box::new(Error::JsonDeserializationFailed),
                    },
                ),
            },
        }
    }

    /// One pipeline pass in the unauthenticated state: only the token
    /// exchange runs here.
    pub fn call(&self, name: &str, outcome: SendOutcome) -> (r: Result<String, Error>)
        ensures
            api_call_post(name@, outcome, r),
    {
        api_call(name, outcome)
    }
}

/// A parameter mapping with every pair under the given key removed, in the
/// order among the kept pairs unchanged.
pub open spec fn without_key(params: Seq<(String, String)>, key: Seq<char>) -> Seq<(String, String)>
    decreases params.len(),
{
    if params.len() == 0 {
        Seq::<(String, String)>::empty()
    } else {
        let init = without_key(params.drop_last(), key);
        if params.last().0@ == key {
            init
        } else {
            init.push(params.last())
        }
    }
}

impl AuthenticatedClient {
    /// The token this client holds.
    pub fn token(&self) -> (r: &Token)
        ensures
            r == self.token,
    {
        &self.token
    }

    /// The parameter mapping of an authenticated call: the given parameters
    /// with this client's access token bound to the `access_token` key. The
    /// token is injected here, immediately before the transport runs, and
    /// nowhere earlier.
    pub fn call_params(&self, params: &Vec<(String, String)>) -> (r: Vec<(String, String)>)
        ensures
            r@.len() >= 1,
            r@.drop_last() == without_key(params@, "access_token"@),
            r@.last().0@ == "access_token"@,
            r@.last().1@ == self.token.access_token@,
    {
        let mut out: Vec<(String, String)> = Vec::new();
        let key = "access_token".to_string();
        let mut i: usize = 0;
        while i < params.len()
            invariant
                i <= params.len(),
                key@ == "access_token"@,
                out@ == without_key(params@.take(i as int), "access_token"@),
            decreases params.len() - i,
        {
            let pair = &params[i];
            proof {
                assert(params@.take(i as int + 1).drop_last() =~= params@.take(i as int));
                assert(params@.take(i as int + 1).last() == params@[i as int]);
            }
            if !(pair.0 == key) {
                out.push((pair.0.clone(), pair.1.clone()));
            }
            i = i + 1;
        }
        proof {
            assert(params@.take(params@.len() as int) =~= params@);
        }
        out.push((key, self.token.access_token.clone()));
        proof {
            assert(out@.drop_last() =~= without_key(params@, "access_token"@));
        }
        out
    }

    /// One pipeline pass in the authenticated state, on the outcome of a
    /// transport send whose parameters [`Self::call_params`] prepared.
    pub fn call(&self, name: &str, outcome: SendOutcome) -> (r: Result<String, Error>)
        ensures
            api_call_post(name@, outcome, r),
    {
        api_call(name, outcome)
    }
}

} // verus!
