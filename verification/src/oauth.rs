//! The OAuth2 authorization-code flow: the redirect to the identity provider,
//! the code exchange, and the session cookie set on the way back.

use vstd::prelude::*;
use crate::endpoints::{authorization_endpoint, spec_endpoint_url};
use crate::error::ApiError;
use crate::external::{
    form_urlencoded, header_value_char, is_header_value, pairs_view, set_cookie_text,
    urlencode_pairs,
};
use crate::schemas::{
    AuthQuery, LoginQuery, OAuth2AuthorizationCodeParams, OAuth2Token,
    AUTHORIZATION_CODE_GRANT_TYPE,
};
use crate::settings::OAuthSettings;

verus! {

/// The `SameSite` attribute of a cookie.
#[derive(Debug, Clone, Copy, PartialEq, Eq, Structural)]
pub enum SameSitePolicy {
    Strict,
    Lax,
    /// `SameSite=None`: sent with cross-site requests too.
    Unrestricted,
}

/// A cookie to set on the client, with its attributes.
pub struct SessionCookie {
    pub name: String,
    pub value: String,
    pub http_only: bool,
    pub secure: bool,
    pub same_site: SameSitePolicy,
    pub path: String,
}

/// The text of a `SameSite` attribute's value.
pub open spec fn same_site_text(p: SameSitePolicy) -> Seq<char> {
    match p {
        SameSitePolicy::Strict => "Strict"@,
        SameSitePolicy::Lax => "Lax"@,
        SameSitePolicy::Unrestricted => "None"@,
    }
}

/// The `Set-Cookie` header value of a cookie.
pub open spec fn spec_set_cookie(c: SessionCookie) -> Seq<char> {
    c.name@ + "="@ + c.value@ + (if c.http_only {
        "; HttpOnly"@
    } else {
        Seq::empty()
    }) + "; SameSite="@ + same_site_text(c.same_site) + (if c.secure {
        "; Secure"@
    } else {
        Seq::empty()
    }) + "; Path="@ + c.path@
}

/// The response type asked of the authorization endpoint.
pub const LOGIN_RESPONSE_TYPE: &'static str = "code";

/// The scopes asked of the authorization endpoint.
pub const LOGIN_SCOPE: &'static str = "email profile openid";

/// The name of the cookie that carries the access token.
pub const SESSION_COOKIE_NAME: &'static str = "token";

/// The path the session cookie is sent for.
pub const SESSION_COOKIE_PATH: &'static str = "/";

/// The form pairs of an authorization query, in field order.
pub open spec fn spec_auth_query_pairs(
    client_id: Seq<char>,
    redirect_uri: Seq<char>,
    response_type: Seq<char>,
    scope: Seq<char>,
    state: Seq<char>,
) -> Seq<(Seq<char>, Seq<char>)> {
    seq![
        ("client_id"@, client_id),
        ("redirect_uri"@, redirect_uri),
        ("response_type"@, response_type),
        ("scope"@, scope),
        ("state"@, state),
    ]
}

/// The form pairs of a code grant, in field order.
pub open spec fn spec_code_grant_pairs(
    client_id: Seq<char>,
    code: Seq<char>,
    redirect_uri: Seq<char>,
    grant_type: Seq<char>,
) -> Seq<(Seq<char>, Seq<char>)> {
    seq![
        ("client_id"@, client_id),
        ("code"@, code),
        ("redirect_uri"@, redirect_uri),
        ("grant_type"@, grant_type),
    ]
}

/// A pair of owned strings from two string slices.
fn pair(name: &str, value: &str) -> (p: (String, String))
    ensures
        p.0@ == name@,
        p.1@ == value@,
{
    (name.to_owned(), value.to_owned())
}

impl<'a> AuthQuery<'a> {
    /// The query's fields as form pairs, in field order.
    pub fn form_pairs(&self) -> (pairs: Vec<(String, String)>)
        ensures
            pairs_view(pairs@) == spec_auth_query_pairs(
                self.client_id@,
                self.redirect_uri@,
                self.response_type@,
                self.scope@,
                self.state@,
            ),
    {
        let mut pairs: Vec<(String, String)> = Vec::new();
        pairs.push(pair("client_id", self.client_id));
        pairs.push(pair("redirect_uri", self.redirect_uri));
        pairs.push(pair("response_type", self.response_type));
        pairs.push(pair("scope", self.scope));
        pairs.push(pair("state", self.state));
        assert(pairs_view(pairs@) =~= spec_auth_query_pairs(
            self.client_id@,
            self.redirect_uri@,
            self.response_type@,
            self.scope@,
            self.state@,
        ));
        pairs
    }
}

impl<'a> OAuth2AuthorizationCodeParams<'a> {
    /// The grant's fields as form pairs, in field order.
    pub fn form_pairs(&self) -> (pairs: Vec<(String, String)>)
        ensures
            pairs_view(pairs@) == spec_code_grant_pairs(
                self.client_id@,
                self.code@,
                self.redirect_uri@,
                self.grant_type@,
            ),
    {
        let mut pairs: Vec<(String, String)> = Vec::new();
        pairs.push(pair("client_id", self.client_id));
        pairs.push(pair("code", self.code));
        pairs.push(pair("redirect_uri", self.redirect_uri));
        pairs.push(pair("grant_type", self.grant_type));
        assert(pairs_view(pairs@) =~= spec_code_grant_pairs(
            self.client_id@,
            self.code@,
            self.redirect_uri@,
            self.grant_type@,
        ));
        pairs
    }
}

/// The URL that a login request is redirected to: the realm's authorization
/// endpoint, asked for a code with the `email profile openid` scopes, for
/// this client and its redirect URL, carrying the login's redirect target as
/// the state that comes back.
pub open spec fn spec_authorize_url(oauth: OAuthSettings, redirect: Seq<char>) -> Seq<char> {
    spec_endpoint_url(oauth.issuer_url@, oauth.realm@, "auth"@) + "?"@ + form_urlencoded(
        spec_auth_query_pairs(
            oauth.client_id@,
            oauth.redirect_url@,
            LOGIN_RESPONSE_TYPE@,
            LOGIN_SCOPE@,
            redirect,
        ),
    )
}

/// The URL that a login request is redirected to; an authorization query that
/// cannot be encoded is a server error (which form-encoding strings never
/// gives).
pub fn authorize_url(oauth: &OAuthSettings, login: &LoginQuery) -> (res: Result<String, ApiError>)
    ensures
        res is Ok,
        res matches Ok(url) ==> url@ == spec_authorize_url(*oauth, login.redirect@),
{
    let query = AuthQuery {
        client_id: oauth.client_id.as_str(),
        redirect_uri: oauth.redirect_url.as_str(),
        response_type: LOGIN_RESPONSE_TYPE,
        scope: LOGIN_SCOPE,
        state: login.redirect.as_str(),
    };
    let pairs = query.form_pairs();
    match urlencode_pairs(&pairs) {
        Ok(encoded) => {
            let mut url = authorization_endpoint(oauth);
            url.append("?");
            url.append(encoded.as_str());
            Ok(url)
        },
        Err(_) => Err(ApiError::InternalServerError),
    }
}

/// The form body that exchanges `code` at the token endpoint: this client's
/// id, the code, its redirect URL and the `authorization_code` grant type.
pub fn token_request_body(oauth: &OAuthSettings, code: &str) -> (res: Result<String, ApiError>)
    ensures
        res is Ok,
        res matches Ok(body) ==> body@ == form_urlencoded(
            spec_code_grant_pairs(
                oauth.client_id@,
                code@,
                oauth.redirect_url@,
                AUTHORIZATION_CODE_GRANT_TYPE@,
            ),
        ),
{
    let params = OAuth2AuthorizationCodeParams::new(
        oauth.client_id.as_str(),
        code,
        oauth.redirect_url.as_str(),
    );
    let pairs = params.form_pairs();
    match urlencode_pairs(&pairs) {
        Ok(body) => Ok(body),
        Err(_) => Err(ApiError::InternalServerError),
    }
}

/// The cookie that carries an access token back to the client: named
/// `token`, sent only over HTTP to this site's root path, on same-site
/// requests, and not marked secure.
pub fn session_cookie(access_token: &String) -> (cookie: SessionCookie)
    ensures
        cookie.name@ == SESSION_COOKIE_NAME@,
        cookie.value@ == access_token@,
        cookie.http_only,
        !cookie.secure,
        cookie.same_site == SameSitePolicy::Strict,
        cookie.path@ == SESSION_COOKIE_PATH@,
{
    SessionCookie {
        name: SESSION_COOKIE_NAME.to_owned(),
        value: access_token.clone(),
        http_only: true,
        secure: false,
        same_site: SameSitePolicy::Strict,
        path: SESSION_COOKIE_PATH.to_owned(),
    }
}

/// The `Set-Cookie` value that carries `access_token`.
pub open spec fn spec_session_cookie_text(access_token: Seq<char>) -> Seq<char> {
    SESSION_COOKIE_NAME@ + "="@ + access_token + "; HttpOnly"@ + "; SameSite="@ + "Strict"@
        + "; Path="@ + SESSION_COOKIE_PATH@
}

/// The `Set-Cookie` header value that hands the token endpoint's access token
/// to the client; where that text is not a valid header value the callback
/// is unauthorized.
pub fn session_cookie_header(token: &OAuth2Token) -> (res: Result<String, ApiError>)
    ensures
        match res {
            Ok(text) => text@ == spec_session_cookie_text(token.access_token@) && forall|i: int|
                0 <= i < text@.len() ==> header_value_char(#[trigger] text@[i]),
            Err(e) => e == ApiError::Unauthorized && !(forall|i: int|
                0 <= i < spec_session_cookie_text(token.access_token@).len() ==> header_value_char(
                    #[trigger] spec_session_cookie_text(token.access_token@)[i],
                )),
        },
{
    let cookie = session_cookie(&token.access_token);
    let text = set_cookie_text(&cookie);
    assert(text@ =~= spec_session_cookie_text(token.access_token@));
    if is_header_value(&text) {
        Ok(text)
    } else {
        Err(ApiError::Unauthorized)
    }
}

/// Law: the authorization query carries, in this order, this client's id,
/// its configured redirect URL unchanged, the `code` response type, the
/// `email profile openid` scopes and the login's redirect target as state;
/// and the login URL is the realm's authorization endpoint, `?`, and that
/// query encoded.
pub proof fn law_authorize_url_carries_settings(oauth: OAuthSettings, redirect: Seq<char>)
    ensures
        spec_auth_query_pairs(
            oauth.client_id@,
            oauth.redirect_url@,
            LOGIN_RESPONSE_TYPE@,
            LOGIN_SCOPE@,
            redirect,
        ).len() == 5,
        spec_auth_query_pairs(oauth.client_id@, oauth.redirect_url@, LOGIN_RESPONSE_TYPE@, LOGIN_SCOPE@, redirect)[1]
            == (seq!['r', 'e', 'd', 'i', 'r', 'e', 'c', 't', '_', 'u', 'r', 'i'], oauth.redirect_url@),
        spec_authorize_url(oauth, redirect) == spec_endpoint_url(oauth.issuer_url@, oauth.realm@, "auth"@)
            + seq!['?'] + form_urlencoded(
            seq![
                ("client_id"@, oauth.client_id@),
                ("redirect_uri"@, oauth.redirect_url@),
                ("response_type"@, "code"@),
                ("scope"@, "email profile openid"@),
                ("state"@, redirect),
            ],
        ),
{
    reveal_strlit("redirect_uri");
    reveal_strlit("?");
    assert("redirect_uri"@ =~= seq!['r', 'e', 'd', 'i', 'r', 'e', 'c', 't', '_', 'u', 'r', 'i']);
    assert("?"@ =~= seq!['?']);
}

/// Law: the code-grant form carries, in this order, the client id, the
/// authorization code, the redirect URL and the grant type, each exactly as
/// given: the code is passed on whole, however long.
pub proof fn law_code_grant_carries_code(
    client_id: Seq<char>,
    code: Seq<char>,
    redirect_uri: Seq<char>,
    grant_type: Seq<char>,
)
    ensures
        spec_code_grant_pairs(client_id, code, redirect_uri, grant_type).len() == 4,
        spec_code_grant_pairs(client_id, code, redirect_uri, grant_type)[0].1 == client_id,
        spec_code_grant_pairs(client_id, code, redirect_uri, grant_type)[1] == (seq!['c', 'o', 'd', 'e'], code),
        spec_code_grant_pairs(client_id, code, redirect_uri, grant_type)[2].1 == redirect_uri,
        spec_code_grant_pairs(client_id, code, redirect_uri, grant_type)[3].1 == grant_type,
{
    reveal_strlit("code");
    assert("code"@ =~= seq!['c', 'o', 'd', 'e']);
}

/// Law: the body sent to the token endpoint is the form encoding of exactly
/// the client id, the code as received, the configured redirect URL and the
/// `authorization_code` grant type.
pub proof fn law_token_request_body_carries_code(oauth: OAuthSettings, code: Seq<char>)
    ensures
        form_urlencoded(spec_code_grant_pairs(oauth.client_id@, code, oauth.redirect_url@, AUTHORIZATION_CODE_GRANT_TYPE@))
            == form_urlencoded(
            seq![
                ("client_id"@, oauth.client_id@),
                ("code"@, code),
                ("redirect_uri"@, oauth.redirect_url@),
                ("grant_type"@, "authorization_code"@),
            ],
        ),
{
    assert(spec_code_grant_pairs(oauth.client_id@, code, oauth.redirect_url@, AUTHORIZATION_CODE_GRANT_TYPE@)
        =~= seq![
        ("client_id"@, oauth.client_id@),
        ("code"@, code),
        ("redirect_uri"@, oauth.redirect_url@),
        ("grant_type"@, "authorization_code"@),
    ]);
}

/// Law: the session cookie's text is `token=`, then the whole access token,
/// then `; HttpOnly; SameSite=Strict; Path=/`; the token can be read back
/// from it exactly.
pub proof fn law_session_cookie_carries_whole_token(access_token: Seq<char>)
    ensures
        spec_session_cookie_text(access_token) == seq!['t', 'o', 'k', 'e', 'n', '='] + access_token
            + "; HttpOnly; SameSite=Strict; Path=/"@,
        spec_session_cookie_text(access_token).len() == access_token.len() + 41,
        spec_session_cookie_text(access_token).subrange(6, (6 + access_token.len()) as int) == access_token,
{
    reveal_strlit("token");
    reveal_strlit("=");
    reveal_strlit("; HttpOnly");
    reveal_strlit("; SameSite=");
    reveal_strlit("Strict");
    reveal_strlit("; Path=");
    reveal_strlit("/");
    reveal_strlit("; HttpOnly; SameSite=Strict; Path=/");
    let prefix = seq!['t', 'o', 'k', 'e', 'n', '='];
    let suffix = "; HttpOnly; SameSite=Strict; Path=/"@;
    assert(SESSION_COOKIE_NAME@ + "="@ =~= prefix);
    assert("; HttpOnly"@ + "; SameSite="@ + "Strict"@ + "; Path="@ + SESSION_COOKIE_PATH@ =~= suffix);
    assert(spec_session_cookie_text(access_token) =~= prefix + access_token + suffix);
    assert((prefix + access_token + suffix).subrange(6, (6 + access_token.len()) as int) =~= access_token);
}

} // verus!
