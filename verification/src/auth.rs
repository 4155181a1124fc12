//! Bearer-token acquisition: turning the token endpoint's response body
//! into the run's access token.
//!
//! The HTTP POST itself happens outside the library; this module receives
//! the response body as plain bytes. The JSON decoding is done by
//! `serde_json` behind one trusted wrapper; everything that follows is
//! verified.

use vstd::prelude::*;

verus! {

/// Why token acquisition failed on the response body. Any such failure is
/// fatal for the run: nothing can proceed without a token.
#[derive(Clone, Copy, PartialEq, Eq, Structural, Debug)]
pub enum AuthError {
    /// The body is not valid JSON, or its top value has no string
    /// `access_token` member.
    BadTokenResponse,
}

/// The OAuth token endpoint the credentials are exchanged at.
pub fn token_url() -> (url: &'static str)
    ensures
        url@ == "https://osu.ppy.sh/oauth/token"@,
{
    "https://osu.ppy.sh/oauth/token"
}

/// The `access_token` member of `body` read as a JSON document: `Some` of
/// the member's characters exactly when `body` is valid JSON whose top
/// value carries a string `access_token` member, `None` otherwise.
pub uninterp spec fn token_of(body: Seq<u8>) -> Option<Seq<char>>;

/// Relies on `serde_json::from_slice`, `Value::get` and `Value::as_str`:
/// parsing is deterministic in the body bytes, and the chain yields the
/// string under `access_token` exactly when the body is valid JSON whose
/// top value holds one.
#[verifier::external_body]
fn json_access_token(body: &[u8]) -> (r: Option<String>)
    ensures
        r matches Some(t) ==> token_of(body@) == Some(t@),
        r is None ==> token_of(body@) is None,
{
    let value: serde_json::Value = serde_json::from_slice(body).ok()?;
    let token = value.get("access_token")?.as_str()?;
    Some(token.to_string())
}

/// Turns the extracted optional token member into the run's token result:
/// a present member is the token, an absent one is an authentication
/// error.
pub fn token_from_member(member: Option<String>) -> (r: Result<String, AuthError>)
    ensures
        member matches Some(t) ==> (r matches Ok(s) && s@ == t@),
        member is None ==> r == Err::<String, AuthError>(AuthError::BadTokenResponse),
{
    match member {
        Some(t) => Ok(t),
        None => Err(AuthError::BadTokenResponse),
    }
}

/// Extracts the bearer token from a token-endpoint response body: the
/// `access_token` member when the body holds one, an authentication error
/// otherwise.
pub fn parse_token_response(body: &[u8]) -> (r: Result<String, AuthError>)
    ensures
        token_of(body@) matches Some(t) ==> (r matches Ok(s) && s@ == t),
        token_of(body@) is None ==> r == Err::<String, AuthError>(AuthError::BadTokenResponse),
{
    token_from_member(json_access_token(body))
}

} // verus!
