//! Trusted items: the outside types this library carries and the outside
//! functions it calls, each with the contract that Verus takes on trust.

use vstd::prelude::*;
use jsonwebtoken::DecodingKey;
use crate::middleware::{JwtAlgorithm, TokenPolicy};
use crate::oauth::{SameSitePolicy, SessionCookie, spec_set_cookie};

verus! {

/// `jsonwebtoken::DecodingKey`: a public key against which token signatures
/// are checked. Opaque to the library, which only stores and hands it back.
#[verifier::external_type_specification]
#[verifier::external_body]
pub struct ExDecodingKey(jsonwebtoken::DecodingKey);

/// `jsonwebtoken::errors::Error`: why `jsonwebtoken` refused a token or a key.
#[verifier::external_type_specification]
#[verifier::external_body]
pub struct ExJwtError(jsonwebtoken::errors::Error);

/// The key that `jsonwebtoken::DecodingKey::from_rsa_components` builds from
/// the base64url text of an RSA modulus and exponent, or `None` where it
/// refuses them (where either is not valid unpadded base64url).
pub uninterp spec fn rsa_decoding_key(modulus: Seq<char>, exponent: Seq<char>) -> Option<DecodingKey>;

/// Calls `jsonwebtoken::DecodingKey::from_rsa_components(modulus, exponent)`.
/// Its source decodes both texts as unpadded base64url and stores the bytes;
/// the contract claims only that the result is a function of the two texts
/// (`rsa_decoding_key`), and says nothing of the key's contents.
#[verifier::external_body]
pub(crate) fn rsa_key_from_components(modulus: &String, exponent: &String) -> (res: Result<
    DecodingKey,
    jsonwebtoken::errors::Error,
>)
    ensures
        match res {
            Ok(key) => rsa_decoding_key(modulus@, exponent@) == Some(key),
            Err(_) => rsa_decoding_key(modulus@, exponent@) is None,
        },
{
    jsonwebtoken::DecodingKey::from_rsa_components(modulus, exponent)
}

/// `serde_urlencoded::ser::Error`: why a value could not be form-encoded.
#[verifier::external_type_specification]
#[verifier::external_body]
pub struct ExUrlencodedError(serde_urlencoded::ser::Error);

/// The view of an optional string.
pub open spec fn opt_view(o: Option<String>) -> Option<Seq<char>> {
    match o {
        Some(s) => Some(s@),
        None => None,
    }
}

/// What `jsonwebtoken::decode_header` reads from the header of `token`: the
/// name of its algorithm (as `Debug` writes the `Algorithm` variant, such as
/// `RS256`) and its key id, if it names one; `None` where the header cannot
/// be decoded.
pub uninterp spec fn jwt_header(token: Seq<char>) -> Option<(Seq<char>, Option<Seq<char>>)>;

/// Calls `jsonwebtoken::decode_header(token)` and keeps the header's `alg`
/// (as its `Debug` text) and `kid`. Its source splits the token at its last
/// two dots and decodes the first part as base64url JSON; the contract
/// claims only that the outcome is a function of the token (`jwt_header`).
#[verifier::external_body]
pub(crate) fn decode_header_fields(token: &String) -> (res: Result<
    (String, Option<String>),
    jsonwebtoken::errors::Error,
>)
    ensures
        match res {
            Ok((alg, kid)) => jwt_header(token@) == Some((alg@, opt_view(kid))),
            Err(_) => jwt_header(token@) is None,
        },
{
    match jsonwebtoken::decode_header(token) {
        Ok(header) => Ok((format!("{:?}", header.alg), header.kid)),
        Err(e) => Err(e),
    }
}

/// The `Debug` text of the `jsonwebtoken::Algorithm` that an algorithm
/// stands for.
pub open spec fn algorithm_name(algorithm: JwtAlgorithm) -> Seq<char> {
    match algorithm {
        JwtAlgorithm::Rs256 => "RS256"@,
    }
}

/// The JSON text of the claims that `jsonwebtoken::decode` returns for
/// `token` checked against `key` with `Validation::new(algorithm)`, issuer
/// `issuer`, audience `audience` and `validate_exp` off; `None` where it
/// refuses the token. With `validate_exp` off the check does not read the
/// clock: the outcome is a function of these arguments.
pub uninterp spec fn jwt_decode_unexpired(
    token: Seq<char>,
    key: DecodingKey,
    algorithm: JwtAlgorithm,
    issuer: Seq<char>,
    audience: Seq<char>,
) -> Option<Seq<char>>;

/// Calls `jsonwebtoken::decode::<Box<serde_json::value::RawValue>>(token,
/// key, validation)` with the validation that `policy` describes
/// (`Validation::new` of its algorithm, `set_issuer` and `set_audience` of its
/// issuer and audience, `validate_exp` set to its `check_expiry`), and keeps
/// the claims' JSON text as the token carries it.
///
/// Without the expiry check the outcome is a function of its arguments, and
/// the contract names it (`jwt_decode_unexpired`). With it, the outcome also
/// depends on the clock (the `exp` claim is checked against the current
/// time, with 60 seconds of leeway), and the contract states what holds of
/// every outcome: the source's expiry check only adds a refusal, so claims it
/// returns are those of the check without it; and it reads the header as
/// `decode_header` does and accepts only the policy's algorithm. Which
/// tokens the expiry check refuses is left unsaid.
#[verifier::external_body]
pub(crate) fn decode_claims(token: &String, key: &DecodingKey, policy: &TokenPolicy) -> (res: Result<
    String,
    jsonwebtoken::errors::Error,
>)
    ensures
        res matches Ok(claims) ==> jwt_decode_unexpired(
            token@,
            *key,
            policy.algorithm,
            policy.issuer@,
            policy.audience@,
        ) == Some(claims@),
        !policy.check_expiry && res is Err ==> jwt_decode_unexpired(
            token@,
            *key,
            policy.algorithm,
            policy.issuer@,
            policy.audience@,
        ) is None,
        res is Ok ==> (jwt_header(token@) matches Some(header) && header.0 == algorithm_name(
            policy.algorithm,
        )),
{
    let algorithm = match policy.algorithm {
        JwtAlgorithm::Rs256 => jsonwebtoken::Algorithm::RS256,
    };
    let mut validation = jsonwebtoken::Validation::new(algorithm);
    validation.set_issuer(&[policy.issuer.as_str()]);
    validation.set_audience(&[policy.audience.as_str()]);
    validation.validate_exp = policy.check_expiry;
    jsonwebtoken::decode::<Box<serde_json::value::RawValue>>(token, key, &validation)
        .map(|data| data.claims.get().to_string())
}

/// The views of a list of header values.
pub open spec fn headers_view(values: Seq<Vec<u8>>) -> Seq<Seq<u8>> {
    values.map_values(|v: Vec<u8>| v@)
}

/// A byte string that `http` accepts as a header value: each byte is a tab,
/// or at least 32 and not 127.
pub open spec fn header_value_bytes(value: Seq<u8>) -> bool {
    forall|i: int| 0 <= i < value.len() ==> #[trigger] value[i] == 9u8 || (value[i] >= 32u8 && value[i] != 127u8)
}

/// The value of the cookie named `name` that `axum_extra`'s `CookieJar` reads
/// from a request whose `Cookie` header values are `cookie_headers`, if any.
pub uninterp spec fn request_cookie(cookie_headers: Seq<Seq<u8>>, name: Seq<char>) -> Option<Seq<char>>;

/// Calls `axum_extra::extract::CookieJar::from_headers` on a header map that
/// holds `cookie_headers` as its `Cookie` values, then `get(name)`, and keeps
/// the cookie's value. The jar splits each value at `;` and parses each part
/// as a percent-encoded cookie, a later cookie of a name replacing an
/// earlier one; the contract claims only that the outcome is a function of
/// the header values and the name (`request_cookie`).
#[verifier::external_body]
pub(crate) fn find_cookie(cookie_headers: &Vec<Vec<u8>>, name: &str) -> (res: Option<String>)
    requires
        forall|i: int| 0 <= i < cookie_headers@.len() ==> header_value_bytes(#[trigger] cookie_headers@[i]@),
    ensures
        opt_view(res) == request_cookie(headers_view(cookie_headers@), name@),
{
    let headers: axum::http::HeaderMap = cookie_headers.iter().map(|v| (
        axum::http::header::COOKIE,
        axum::http::HeaderValue::from_bytes(v).unwrap(),
    )).collect();
    axum_extra::extract::CookieJar::from_headers(&headers).get(name).map(|c| c.value().to_string())
}

/// The bearer credential that `axum_extra`'s `TypedHeader` decodes from a
/// request whose `Authorization` header values are `authorization_headers`,
/// if it decodes one.
pub uninterp spec fn bearer_credential(authorization_headers: Seq<Seq<u8>>) -> Option<Seq<char>>;

/// Calls `Authorization::<Bearer>::decode` (of the `headers` crate that
/// `axum_extra` re-exports, as its `TypedHeader` extractor does) on the
/// `Authorization` header values `authorization_headers`, and keeps the
/// bearer token. Its source reads the first value only and requires the
/// `Bearer ` scheme; the contract claims only that the outcome is a
/// function of the header values (`bearer_credential`).
#[verifier::external_body]
pub(crate) fn find_bearer(authorization_headers: &Vec<Vec<u8>>) -> (res: Option<String>)
    requires
        forall|i: int| 0 <= i < authorization_headers@.len() ==> header_value_bytes(
            #[trigger] authorization_headers@[i]@,
        ),
    ensures
        opt_view(res) == bearer_credential(headers_view(authorization_headers@)),
{
    let values: Vec<axum::http::HeaderValue> = authorization_headers.iter().map(|v| {
        axum::http::HeaderValue::from_bytes(v).unwrap()
    }).collect();
    <axum_extra::headers::Authorization<axum_extra::headers::authorization::Bearer> as axum_extra::headers::Header>::decode(
        &mut values.iter(),
    ).ok().map(|auth| auth.token().to_string())
}

/// The views of a list of string pairs.
pub open spec fn pairs_view(pairs: Seq<(String, String)>) -> Seq<(Seq<char>, Seq<char>)> {
    pairs.map_values(|p: (String, String)| (p.0@, p.1@))
}

/// The `application/x-www-form-urlencoded` text that
/// `serde_urlencoded::to_string` makes of a list of name and value pairs.
pub uninterp spec fn form_urlencoded(pairs: Seq<(Seq<char>, Seq<char>)>) -> Seq<char>;

/// Calls `serde_urlencoded::to_string(pairs)`. Its source appends each pair
/// with `form_urlencoded::Serializer::append_pair` and cannot fail on pairs of
/// strings; the contract claims that it succeeds and that the text is a
/// function of the pairs (`form_urlencoded`).
#[verifier::external_body]
pub(crate) fn urlencode_pairs(pairs: &Vec<(String, String)>) -> (res: Result<String, serde_urlencoded::ser::Error>)
    ensures
        res is Ok,
        res matches Ok(text) ==> text@ == form_urlencoded(pairs_view(pairs@)),
{
    serde_urlencoded::to_string(pairs)
}

/// Calls `to_string` on the `axum_extra` (`cookie` crate) cookie that
/// `cookie` describes, built with `Cookie::build((name, value))` and its
/// `http_only`, `secure`, `same_site` and `path`. The contract states the
/// text that the crate's `Display` writes for such a cookie: the name, `=`,
/// the value, then `; HttpOnly`, `; SameSite=..`, `; Secure` and `; Path=..`
/// as set.
#[verifier::external_body]
pub(crate) fn set_cookie_text(cookie: &SessionCookie) -> (text: String)
    ensures
        text@ == spec_set_cookie(*cookie),
{
    let same_site = match cookie.same_site {
        SameSitePolicy::Strict => axum_extra::extract::cookie::SameSite::Strict,
        SameSitePolicy::Lax => axum_extra::extract::cookie::SameSite::Lax,
        SameSitePolicy::Unrestricted => axum_extra::extract::cookie::SameSite::None,
    };
    axum_extra::extract::cookie::Cookie::build((cookie.name.as_str(), cookie.value.as_str()))
        .http_only(cookie.http_only).secure(cookie.secure).same_site(same_site)
        .path(cookie.path.as_str()).to_string()
}

/// A character that `http` accepts in a header value: a tab, or any
/// character from the space on but DEL (in UTF-8 every byte of a character
/// beyond ASCII is 0x80 or more, which `http` accepts).
pub open spec fn header_value_char(c: char) -> bool {
    c == '\t' || (c as u32 >= 32 && c as u32 != 127)
}

/// Calls `axum::http::HeaderValue::from_str(text)` and tells whether it
/// succeeded. Its source accepts exactly the texts whose bytes are all a tab,
/// or at least 32 and not 127.
#[verifier::external_body]
pub(crate) fn is_header_value(text: &String) -> (ok: bool)
    ensures
        ok == (forall|i: int| 0 <= i < text@.len() ==> header_value_char(#[trigger] text@[i])),
{
    axum::http::HeaderValue::from_str(text).is_ok()
}

} // verus!
