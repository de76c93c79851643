//! The plain data that the service exchanges with its identity provider and
//! its clients.

use vstd::prelude::*;

verus! {

/// One key of a JSON Web Key Set: its key id and the base64url text of an RSA
/// modulus and exponent.
pub struct Jwk {
    pub kid: String,
    pub n: String,
    pub e: String,
}

/// The JSON Web Key Set that the identity provider publishes.
pub struct JwksResponse {
    pub keys: Vec<Jwk>,
}

/// The claims of an access token that the service relies on.
pub struct Claims {
    pub sub: String,
    pub email: Option<String>,
    pub preferred_username: Option<String>,
    pub exp: usize,
}

/// The query of the identity provider's redirect back to the service.
pub struct OAuth2CallbackParams {
    pub state: String,
    pub session_state: Option<String>,
    pub iss: String,
    pub code: String,
}

/// The form of an authorization-code grant sent to the token endpoint.
pub struct OAuth2AuthorizationCodeParams<'a> {
    pub client_id: &'a str,
    pub code: &'a str,
    pub redirect_uri: &'a str,
    pub grant_type: &'a str,
}

/// The grant type of an authorization-code exchange.
pub const AUTHORIZATION_CODE_GRANT_TYPE: &'static str = "authorization_code";

/// The grant type that a code-grant form carries when none is given.
pub fn code_grant_type() -> (grant: &'static str)
    ensures
        grant@ == AUTHORIZATION_CODE_GRANT_TYPE@,
{
    AUTHORIZATION_CODE_GRANT_TYPE
}

impl<'a> OAuth2AuthorizationCodeParams<'a> {
    /// The code-grant form for `code`, issued to `client_id` with
    /// `redirect_uri`.
    pub fn new(client_id: &'a str, code: &'a str, redirect_uri: &'a str) -> (params: Self)
        ensures
            params.client_id@ == client_id@,
            params.code@ == code@,
            params.redirect_uri@ == redirect_uri@,
            params.grant_type@ == AUTHORIZATION_CODE_GRANT_TYPE@,
    {
        Self {
            client_id: client_id,
            code: code,
            redirect_uri: redirect_uri,
            grant_type: AUTHORIZATION_CODE_GRANT_TYPE,
        }
    }
}

/// The token endpoint's answer to a code grant.
pub struct OAuth2Token {
    pub access_token: String,
    pub expires_in: u64,
    pub refresh_expires_in: u64,
    pub refresh_token: String,
    pub token_type: String,
    pub not_before_policy: u64,
    pub session_state: String,
    pub scope: String,
}

/// The query of a redirect to the identity provider's authorization endpoint.
pub struct AuthQuery<'a> {
    pub client_id: &'a str,
    pub redirect_uri: &'a str,
    pub response_type: &'a str,
    pub scope: &'a str,
    pub state: &'a str,
}

/// The query of a login request: where to send the user once signed in.
pub struct LoginQuery {
    pub redirect: String,
}

} // verus!
