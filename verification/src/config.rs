//! Run configuration: the OAuth client-credential pair and the
//! form-encoded body of the token request built from it.

use vstd::prelude::*;
use vstd::string::StringExecFns;

verus! {

/// Why a credential pair was rejected at startup.
#[derive(Clone, Copy, PartialEq, Eq, Structural, Debug)]
pub enum ConfigError {
    /// The client id is absent or empty.
    EmptyClientId,
    /// The client secret is absent or empty.
    EmptyClientSecret,
}

/// An OAuth client-credential pair, loaded once at startup.
pub struct Credentials {
    pub client_id: String,
    pub client_secret: String,
}

impl Credentials {
    /// Both parts of a well-formed pair are non-empty.
    pub open spec fn wf(&self) -> bool {
        self.client_id@.len() > 0 && self.client_secret@.len() > 0
    }

    /// Accepts the pair exactly when both parts are non-empty; an unset
    /// environment variable reaches the library as an empty string. An
    /// empty client id is reported before an empty secret.
    pub fn new(client_id: String, client_secret: String) -> (r: Result<Credentials, ConfigError>)
        ensures
            client_id@.len() == 0 ==> r == Err::<Credentials, ConfigError>(
                ConfigError::EmptyClientId,
            ),
            client_id@.len() > 0 && client_secret@.len() == 0 ==> r == Err::<
                Credentials,
                ConfigError,
            >(ConfigError::EmptyClientSecret),
            client_id@.len() > 0 && client_secret@.len() > 0 ==> (r matches Ok(c) && c.wf()
                && c.client_id@ == client_id@ && c.client_secret@ == client_secret@),
    {
        if client_id.as_str().is_empty() {
            Err(ConfigError::EmptyClientId)
        } else if client_secret.as_str().is_empty() {
            Err(ConfigError::EmptyClientSecret)
        } else {
            Ok(Credentials { client_id, client_secret })
        }
    }
}

/// The form-encoded body of the client-credentials token request: the two
/// credential parts and the fixed grant type and scope, in that order.
pub fn token_request_body(creds: &Credentials) -> (body: String)
    ensures
        body@ == "client_id="@ + creds.client_id@ + "&client_secret="@ + creds.client_secret@
            + "&grant_type=client_credentials&scope=public"@,
{
    let mut body = String::from_str("client_id=");
    body.append(creds.client_id.as_str());
    body.append("&client_secret=");
    body.append(creds.client_secret.as_str());
    body.append("&grant_type=client_credentials&scope=public");
    proof {
        assert(body@ =~= "client_id="@ + creds.client_id@ + "&client_secret="@
            + creds.client_secret@ + "&grant_type=client_credentials&scope=public"@);
    }
    body
}

} // verus!
