//! The authentication middleware's decisions: which token a request carries,
//! which key checks it, and what a request without valid credentials is
//! answered.

use vstd::prelude::*;
use crate::endpoints::{realm_url, spec_realm_url};
use crate::error::ApiError;
use crate::external::{
    bearer_credential, find_bearer, find_cookie, header_value_bytes, headers_view, request_cookie,
    algorithm_name, decode_claims, decode_header_fields, jwt_decode_unexpired, jwt_header, opt_view,
};
use jsonwebtoken::DecodingKey;
use crate::jwks::JwksCache;
use crate::oauth::SESSION_COOKIE_NAME;
use crate::schemas::Claims;
use crate::settings::OAuthSettings;

verus! {

/// The signature algorithms that tokens may be signed with.
#[derive(Debug, Clone, Copy, PartialEq, Eq, Structural)]
pub enum JwtAlgorithm {
    /// RSASSA-PKCS1-v1_5 with SHA-256.
    Rs256,
}

/// The audience that access tokens must name.
pub const TOKEN_AUDIENCE: &'static str = "account";

/// What a token must satisfy besides its signature: the algorithm it is
/// signed with, the issuer it names, the audience it is meant for, and
/// whether its expiry is checked against the clock.
pub struct TokenPolicy {
    pub algorithm: JwtAlgorithm,
    pub issuer: String,
    pub audience: String,
    pub check_expiry: bool,
}

/// The policy of tokens issued by the configured realm: RS256, issued by the
/// realm's URL, for the `account` audience, and not expired.
pub fn token_policy(oauth: &OAuthSettings) -> (policy: TokenPolicy)
    ensures
        policy.algorithm == JwtAlgorithm::Rs256,
        policy.issuer@ == spec_realm_url(oauth.issuer_url@, oauth.realm@),
        policy.audience@ == TOKEN_AUDIENCE@,
        policy.check_expiry,
{
    TokenPolicy {
        algorithm: JwtAlgorithm::Rs256,
        issuer: realm_url(oauth.issuer_url.as_str(), oauth.realm.as_str()),
        audience: TOKEN_AUDIENCE.to_owned(),
        check_expiry: true,
    }
}

/// The token a request presents: the `token` cookie if there is one, else
/// the bearer token of its `Authorization` header.
pub open spec fn spec_selected_token(cookie: Option<Seq<char>>, bearer: Option<Seq<char>>) -> Option<Seq<char>> {
    match cookie {
        Some(token) => Some(token),
        None => bearer,
    }
}

/// The token a request presents, the `token` cookie taking precedence over
/// the bearer token; a request with neither is unauthorized.
pub fn select_token(cookie_token: Option<String>, bearer_token: Option<String>) -> (res: Result<String, ApiError>)
    ensures
        match res {
            Ok(token) => spec_selected_token(opt_view(cookie_token), opt_view(bearer_token)) == Some(token@),
            Err(e) => spec_selected_token(opt_view(cookie_token), opt_view(bearer_token)) is None
                && e == ApiError::Unauthorized,
        },
{
    match cookie_token {
        Some(token) => Ok(token),
        None => match bearer_token {
            Some(token) => Ok(token),
            None => Err(ApiError::Unauthorized),
        },
    }
}

/// The key id that the header of `token` names, if it decodes and names one.
pub open spec fn spec_header_kid(token: Seq<char>) -> Option<Seq<char>> {
    match jwt_header(token) {
        Some((_, Some(kid))) => Some(kid),
        _ => None,
    }
}

/// The algorithm that the header of `token` names, if it decodes.
pub open spec fn spec_header_algorithm(token: Seq<char>) -> Option<Seq<char>> {
    match jwt_header(token) {
        Some((alg, _)) => Some(alg),
        None => None,
    }
}

/// What the signature check of a request presenting these credentials is
/// handed: the presented token (the `token` cookie, else the bearer token)
/// and the cached key of the key id that the token's header names; `None`
/// where there is no token, its header does not decode or names no key id,
/// or the cache holds no key under that id.
pub open spec fn spec_check_input(
    cookie: Option<Seq<char>>,
    bearer: Option<Seq<char>>,
    keys: Map<Seq<char>, DecodingKey>,
) -> Option<(Seq<char>, DecodingKey)> {
    match spec_selected_token(cookie, bearer) {
        Some(token) => match jwt_header(token) {
            Some((_, Some(kid))) => if keys.contains_key(kid) {
                Some((token, keys[kid]))
            } else {
                None
            },
            _ => None,
        },
        None => None,
    }
}

/// The claims that the realm's token check, the clock left aside, finds in
/// `token` checked against `key`: RS256, the realm's URL as issuer, the
/// `account` audience.
pub open spec fn spec_realm_check(oauth: OAuthSettings, token: Seq<char>, key: DecodingKey) -> Option<
    Seq<char>,
> {
    jwt_decode_unexpired(
        token,
        key,
        JwtAlgorithm::Rs256,
        spec_realm_url(oauth.issuer_url@, oauth.realm@),
        TOKEN_AUDIENCE@,
    )
}

/// The JSON text of the claims that a request presenting these credentials is admitted with,
/// the clock left aside: those that the realm's check finds in the presented
/// token with the cached key of its key id.
pub open spec fn spec_admitted_claims(
    oauth: OAuthSettings,
    cookie: Option<Seq<char>>,
    bearer: Option<Seq<char>>,
    keys: Map<Seq<char>, DecodingKey>,
) -> Option<Seq<char>> {
    match spec_check_input(cookie, bearer, keys) {
        Some((token, key)) => spec_realm_check(oauth, token, key),
        None => None,
    }
}

/// The presented token and the cached key that checks it; unauthorized where
/// the request presents no token, its header does not decode or names no key
/// id, or the cache holds no key under that id.
pub fn signature_check_input(
    cookie_token: Option<String>,
    bearer_token: Option<String>,
    cache: &JwksCache,
) -> (res: Result<(String, &DecodingKey), ApiError>)
    ensures
        match res {
            Ok((token, key)) => spec_check_input(opt_view(cookie_token), opt_view(bearer_token), cache@)
                == Some((token@, *key)),
            Err(e) => spec_check_input(opt_view(cookie_token), opt_view(bearer_token), cache@) is None
                && e == ApiError::Unauthorized,
        },
{
    let token = match select_token(cookie_token, bearer_token) {
        Ok(token) => token,
        Err(e) => return Err(e),
    };
    let kid = match decode_header_fields(&token) {
        Ok((_, Some(kid))) => kid,
        _ => return Err(ApiError::Unauthorized),
    };
    match cache.get(&kid) {
        Some(key) => Ok((token, key)),
        None => Err(ApiError::Unauthorized),
    }
}

/// Law: a request that presents no token is refused before any signature
/// check, whatever keys the cache holds.
pub proof fn law_no_token_refused(keys: Map<Seq<char>, DecodingKey>)
    ensures
        spec_check_input(None, None, keys) is None,
{
}

/// Law: when the `token` cookie is present, the bearer token plays no part:
/// the signature check is handed the same token and key whatever the bearer
/// token is.
pub proof fn law_cookie_takes_precedence(
    cookie: Seq<char>,
    bearer: Option<Seq<char>>,
    other_bearer: Option<Seq<char>>,
    keys: Map<Seq<char>, DecodingKey>,
)
    ensures
        spec_selected_token(Some(cookie), bearer) == Some(cookie),
        spec_check_input(Some(cookie), bearer, keys) == spec_check_input(
            Some(cookie),
            other_bearer,
            keys,
        ),
        spec_check_input(Some(cookie), bearer, keys) matches Some(input) ==> input.0 == cookie,
{
}

/// Law: a token whose header names no key id, or a key id the cache does not
/// hold, is refused before any signature check; one whose key id the cache
/// holds is handed to the check with the key stored under that id.
pub proof fn law_checked_with_cached_key(
    cookie: Option<Seq<char>>,
    bearer: Option<Seq<char>>,
    keys: Map<Seq<char>, DecodingKey>,
)
    requires
        spec_selected_token(cookie, bearer) is Some,
    ensures
        spec_check_input(cookie, bearer, keys) is Some <==> (spec_header_kid(
            spec_selected_token(cookie, bearer).unwrap(),
        ) matches Some(kid) && keys.contains_key(kid)),
        spec_header_kid(spec_selected_token(cookie, bearer).unwrap()) matches Some(kid) ==> (
        keys.contains_key(kid) ==> spec_check_input(cookie, bearer, keys) == Some(
            (spec_selected_token(cookie, bearer).unwrap(), keys[kid]),
        )),
{
}

/// The answer to a token whose signature and claims `jsonwebtoken` checked:
/// its claims where the check passed, unauthorized where it failed.
pub fn admit_decoded(decoded: Result<String, jsonwebtoken::errors::Error>) -> (res: Result<
    String,
    ApiError,
>)
    ensures
        match decoded {
            Ok(claims) => res == Ok::<String, ApiError>(claims),
            Err(_) => res == Err::<String, ApiError>(ApiError::Unauthorized),
        },
{
    match decoded {
        Ok(claims) => Ok(claims),
        Err(_) => Err(ApiError::Unauthorized),
    }
}

/// Authenticates a request by the token it presents (the `token` cookie, else
/// the bearer token): reads the key id from the token's header, finds that key
/// in the cache and has `jsonwebtoken` check the token against it and against
/// the realm's token policy (RS256, the realm's URL as issuer, the `account`
/// audience, not expired). Every refusal is `Unauthorized`. A request that
/// does not get as far as the signature check is refused; one that does is
/// admitted only with the claims that the check finds in the presented token
/// with the cached key, and only if the token's header names RS256. Whether
/// the token has expired is decided by `jsonwebtoken` against the clock and
/// is not stated here.
pub fn authenticate(
    cookie_token: Option<String>,
    bearer_token: Option<String>,
    cache: &JwksCache,
    oauth: &OAuthSettings,
) -> (res: Result<String, ApiError>)
    ensures
        res matches Err(e) ==> e == ApiError::Unauthorized,
        spec_check_input(opt_view(cookie_token), opt_view(bearer_token), cache@) is None ==> (res is Err),
        spec_admitted_claims(*oauth, opt_view(cookie_token), opt_view(bearer_token), cache@) is None
            ==> (res is Err),
        res matches Ok(claims) ==> spec_admitted_claims(
            *oauth,
            opt_view(cookie_token),
            opt_view(bearer_token),
            cache@,
        ) == Some(claims@),
        res is Ok ==> spec_header_algorithm(
            spec_selected_token(opt_view(cookie_token), opt_view(bearer_token)).unwrap(),
        ) == Some(algorithm_name(JwtAlgorithm::Rs256)),
{
    let (token, key) = match signature_check_input(cookie_token, bearer_token, cache) {
        Ok(input) => input,
        Err(e) => return Err(e),
    };
    let policy = token_policy(oauth);
    admit_decoded(decode_claims(&token, key, &policy))
}

/// The token cookie and the bearer credential of a request whose `Cookie`
/// and `Authorization` header values are these.
pub open spec fn spec_request_credentials(cookie_headers: Seq<Seq<u8>>, authorization_headers: Seq<Seq<u8>>) -> (
    Option<Seq<char>>,
    Option<Seq<char>>,
) {
    (request_cookie(cookie_headers, SESSION_COOKIE_NAME@), bearer_credential(authorization_headers))
}

/// Law: when a request carries the `token` cookie, its `Authorization`
/// headers play no part: the signature check is handed the cookie's token
/// and the same key, and the claims a request can be admitted with are the
/// same, whatever those headers are.
pub proof fn law_cookie_request_ignores_authorization(
    oauth: OAuthSettings,
    cookie_headers: Seq<Seq<u8>>,
    authorization_headers: Seq<Seq<u8>>,
    other_authorization_headers: Seq<Seq<u8>>,
    keys: Map<Seq<char>, DecodingKey>,
)
    requires
        request_cookie(cookie_headers, SESSION_COOKIE_NAME@) is Some,
    ensures
        spec_check_input(
            request_cookie(cookie_headers, SESSION_COOKIE_NAME@),
            bearer_credential(authorization_headers),
            keys,
        ) == spec_check_input(
            request_cookie(cookie_headers, SESSION_COOKIE_NAME@),
            bearer_credential(other_authorization_headers),
            keys,
        ),
        spec_admitted_claims(
            oauth,
            request_cookie(cookie_headers, SESSION_COOKIE_NAME@),
            bearer_credential(authorization_headers),
            keys,
        ) == spec_admitted_claims(
            oauth,
            request_cookie(cookie_headers, SESSION_COOKIE_NAME@),
            bearer_credential(other_authorization_headers),
            keys,
        ),
{
}

/// Law: when the `token` cookie is present, the bearer token plays no part in
/// the claims a request can be admitted with.
pub proof fn law_admitted_claims_ignore_bearer(
    oauth: OAuthSettings,
    cookie: Seq<char>,
    bearer: Option<Seq<char>>,
    other_bearer: Option<Seq<char>>,
    keys: Map<Seq<char>, DecodingKey>,
)
    ensures
        spec_admitted_claims(oauth, Some(cookie), bearer, keys) == spec_admitted_claims(
            oauth,
            Some(cookie),
            other_bearer,
            keys,
        ),
{
}

/// The `token` cookie and the bearer credential of a request whose `Cookie`
/// and `Authorization` header values are these.
pub fn request_credentials(cookie_headers: &Vec<Vec<u8>>, authorization_headers: &Vec<Vec<u8>>) -> (res: (
    Option<String>,
    Option<String>,
))
    requires
        forall|i: int| 0 <= i < cookie_headers@.len() ==> header_value_bytes(#[trigger] cookie_headers@[i]@),
        forall|i: int|
            0 <= i < authorization_headers@.len() ==> header_value_bytes(
                #[trigger] authorization_headers@[i]@,
            ),
    ensures
        (opt_view(res.0), opt_view(res.1)) == spec_request_credentials(
            headers_view(cookie_headers@),
            headers_view(authorization_headers@),
        ),
{
    (find_cookie(cookie_headers, SESSION_COOKIE_NAME), find_bearer(authorization_headers))
}

/// Law: a token presented as a bearer credential, with no `token` cookie,
/// is handed to the signature check exactly as the same token presented as
/// the cookie would be, and can be admitted with the same claims; no token
/// is refused for arriving in the `Authorization` header.
pub proof fn law_bearer_token_checked_like_cookie(
    oauth: OAuthSettings,
    token: Seq<char>,
    keys: Map<Seq<char>, DecodingKey>,
)
    ensures
        spec_check_input(None, Some(token), keys) == spec_check_input(Some(token), None, keys),
        spec_admitted_claims(oauth, None, Some(token), keys) == spec_admitted_claims(
            oauth,
            Some(token),
            None,
            keys,
        ),
        spec_header_kid(token) matches Some(kid) ==> (keys.contains_key(kid) ==> spec_check_input(
            None,
            Some(token),
            keys,
        ) == Some((token, keys[kid]))),
{
}

/// Authenticates a request by its `Cookie` and `Authorization` header
/// values: the token is the `token` cookie if the request carries one, else
/// the bearer credential of its `Authorization` header; that token is then
/// checked as `authenticate` does. Every refusal is `Unauthorized`; a request
/// without a token, whose token's header names no key id or one the cache
/// does not hold, or that the realm's check refuses, is refused; an admitted
/// request is admitted with the claims that check finds.
pub fn authenticate_request(
    cookie_headers: &Vec<Vec<u8>>,
    authorization_headers: &Vec<Vec<u8>>,
    cache: &JwksCache,
    oauth: &OAuthSettings,
) -> (res: Result<String, ApiError>)
    requires
        forall|i: int| 0 <= i < cookie_headers@.len() ==> header_value_bytes(#[trigger] cookie_headers@[i]@),
        forall|i: int|
            0 <= i < authorization_headers@.len() ==> header_value_bytes(
                #[trigger] authorization_headers@[i]@,
            ),
    ensures
        res matches Err(e) ==> e == ApiError::Unauthorized,
        ({
            let (cookie, bearer) = spec_request_credentials(
                headers_view(cookie_headers@),
                headers_view(authorization_headers@),
            );
            &&& spec_check_input(cookie, bearer, cache@) is None ==> (res is Err)
            &&& spec_admitted_claims(*oauth, cookie, bearer, cache@) is None ==> (res is Err)
            &&& (res matches Ok(claims) ==> spec_admitted_claims(*oauth, cookie, bearer, cache@) == Some(
                claims@,
            ))
            &&& (res is Ok ==> spec_header_algorithm(spec_selected_token(cookie, bearer).unwrap())
                == Some(algorithm_name(JwtAlgorithm::Rs256)))
        }),
{
    let (cookie_token, bearer_token) = request_credentials(cookie_headers, authorization_headers);
    authenticate(cookie_token, bearer_token, cache, oauth)
}

/// An authenticated caller, known by the claims of its token.
pub struct AuthUser(pub Claims);

impl AuthUser {
    /// The caller that the authentication middleware admitted, known by the
    /// claims it attached to the request; a request without them is
    /// unauthorized.
    pub fn from_extension(claims: Option<Claims>) -> (res: Result<AuthUser, ApiError>)
        ensures
            match claims {
                Some(c) => res == Ok::<AuthUser, ApiError>(AuthUser(c)),
                None => res == Err::<AuthUser, ApiError>(ApiError::Unauthorized),
            },
    {
        match claims {
            Some(c) => Ok(AuthUser(c)),
            None => Err(ApiError::Unauthorized),
        }
    }
}

} // verus!
