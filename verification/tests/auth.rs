use api::endpoints::{authorization_endpoint, certs_url, realm_url, token_endpoint};
use api::error::{ApiError, JwksError};
use api::jwks::JwksCache;
use api::middleware::{authenticate, authenticate_request, request_credentials, select_token, signature_check_input, token_policy, AuthUser, JwtAlgorithm};
use api::schemas::{Claims, Jwk};
use api::settings::OAuthSettings;

const TEST_RSA_N: &str = "uFSMF7B_Nmco6qb1t5q7bTmfxsS32JeLLuCg-ZSwiVCQSxOqOKAnBh8df_Ac_qsz3Qo_yaqr1nSJzvEYn-hJP4-5IK7qUSp2DsACID_uKGW5kROxSERTn3Bg0lRP_Pa3eXAKu3pwuTnep43Gih94vPOijwrwxnv6MEPT5kIOFXOBDwCXDWj4jiAeoeYdrjBBFA5V0618_VAB5xhhctPsS9uCtRjauDCV7OhujmIyiIkU8-unSr3IKsZ_UGbFIEdZlwxtwGgJyWjl_rzRoMxfSX47DDfcHLXF-8T4X1Yk3JTfgQMwE-Kl7XwM8ejdwub6URSAehFDvXw3FMfXJXB3AQ";
const TEST_RSA_E: &str = "AQAB";

fn oauth() -> OAuthSettings {
    OAuthSettings {
        issuer_url: "http://idp.example".to_string(),
        client_id: "api-client".to_string(),
        realm: "master".to_string(),
        jwks_cache_refresh_interval_sec: None,
        redirect_url: "http://localhost:5000/auth/callback".to_string(),
    }
}

fn jwk(kid: &str, n: &str, e: &str) -> Jwk {
    Jwk { kid: kid.to_string(), n: n.to_string(), e: e.to_string() }
}

fn test_cache() -> JwksCache {
    JwksCache::from_jwks(&vec![jwk("k1", TEST_RSA_N, TEST_RSA_E)]).unwrap()
}

/// Unpadded base64url, as JSON Web Tokens encode their parts.
fn b64url(bytes: &[u8]) -> String {
    const ALPHABET: &[u8] = b"ABCDEFGHIJKLMNOPQRSTUVWXYZabcdefghijklmnopqrstuvwxyz0123456789-_";
    let mut out = String::new();
    for chunk in bytes.chunks(3) {
        let b = [chunk[0], *chunk.get(1).unwrap_or(&0), *chunk.get(2).unwrap_or(&0)];
        let n = ((b[0] as u32) << 16) | ((b[1] as u32) << 8) | (b[2] as u32);
        for i in 0..(chunk.len() + 1) {
            out.push(ALPHABET[((n >> (18 - 6 * i)) & 63) as usize] as char);
        }
    }
    out
}

/// A token in JWT form whose header names `kid` (if any), with well-formed
/// claims for the test realm, and a signature that no key produced.
fn forged_token(kid: Option<&str>) -> String {
    let header = match kid {
        Some(k) => format!("{{\"alg\":\"RS256\",\"typ\":\"JWT\",\"kid\":\"{}\"}}", k),
        None => "{\"alg\":\"RS256\",\"typ\":\"JWT\"}".to_string(),
    };
    let claims = "{\"sub\":\"user-1\",\"iss\":\"http://idp.example/realms/master\",\"aud\":\"account\",\"exp\":4102444800}";
    format!("{}.{}.{}", b64url(header.as_bytes()), b64url(claims.as_bytes()), b64url(&[0u8; 256]))
}

#[test]
fn endpoint_urls_follow_the_realm() {
    let o = oauth();
    assert_eq!(realm_url("http://idp.example", "master"), "http://idp.example/realms/master");
    assert_eq!(
        certs_url("http://idp.example", "master"),
        "http://idp.example/realms/master/protocol/openid-connect/certs"
    );
    assert_eq!(
        authorization_endpoint(&o),
        "http://idp.example/realms/master/protocol/openid-connect/auth"
    );
    assert_eq!(
        token_endpoint(&o),
        "http://idp.example/realms/master/protocol/openid-connect/token"
    );
    assert!(token_endpoint(&o).starts_with(&realm_url("http://idp.example", "master")));
}

#[test]
fn token_policy_names_realm_issuer_and_account_audience() {
    let p = token_policy(&oauth());
    assert_eq!(p.algorithm, JwtAlgorithm::Rs256);
    assert_eq!(p.issuer, "http://idp.example/realms/master");
    assert_eq!(p.audience, "account");
    assert!(p.check_expiry);
}

#[test]
fn cookie_token_takes_precedence_over_bearer() {
    assert_eq!(select_token(Some("c".to_string()), Some("b".to_string())), Ok("c".to_string()));
    assert_eq!(select_token(None, Some("b".to_string())), Ok("b".to_string()));
    assert_eq!(select_token(Some("c".to_string()), None), Ok("c".to_string()));
    assert_eq!(select_token(None, None), Err(ApiError::Unauthorized));
}

#[test]
fn b64url_encodes_like_jwt_parts() {
    assert_eq!(b64url(b"{\"alg\":\"RS256\"}"), "eyJhbGciOiJSUzI1NiJ9");
}

#[test]
fn token_with_cached_kid_but_wrong_signature_is_unauthorized() {
    let res = authenticate(None, Some(forged_token(Some("k1"))), &test_cache(), &oauth());
    assert_eq!(res.err(), Some(ApiError::Unauthorized));
}

#[test]
fn cookie_token_with_wrong_signature_is_unauthorized() {
    let res = authenticate(Some(forged_token(Some("k1"))), None, &test_cache(), &oauth());
    assert_eq!(res.err(), Some(ApiError::Unauthorized));
}

#[test]
fn invalid_cookie_shadows_bearer() {
    let res = authenticate(Some("garbage".to_string()), Some(forged_token(Some("k1"))), &test_cache(), &oauth());
    assert_eq!(res.err(), Some(ApiError::Unauthorized));
}

#[test]
fn request_without_token_is_unauthorized() {
    let res = authenticate(None, None, &test_cache(), &oauth());
    assert_eq!(res.err(), Some(ApiError::Unauthorized));
}

#[test]
fn malformed_token_is_unauthorized() {
    let res = authenticate(None, Some("not.a.jwt".to_string()), &test_cache(), &oauth());
    assert_eq!(res.err(), Some(ApiError::Unauthorized));
}

#[test]
fn token_without_kid_is_unauthorized() {
    let res = authenticate(None, Some(forged_token(None)), &test_cache(), &oauth());
    assert_eq!(res.err(), Some(ApiError::Unauthorized));
}

#[test]
fn token_with_unknown_kid_is_unauthorized() {
    let res = authenticate(None, Some(forged_token(Some("other"))), &test_cache(), &oauth());
    assert_eq!(res.err(), Some(ApiError::Unauthorized));
}

#[test]
fn empty_cache_admits_nothing() {
    let res = authenticate(None, Some(forged_token(Some("k1"))), &JwksCache::new(), &oauth());
    assert_eq!(res.err(), Some(ApiError::Unauthorized));
}

#[test]
fn jwks_with_invalid_component_is_refused() {
    let keys = vec![jwk("k1", TEST_RSA_N, TEST_RSA_E), jwk("k2", "not base64!", "AQAB")];
    assert_eq!(JwksCache::from_jwks(&keys).err(), Some(JwksError::InvalidJwk));
}

#[test]
fn jwks_cache_holds_every_kid() {
    let keys = vec![jwk("k1", TEST_RSA_N, TEST_RSA_E), jwk("k2", "AQAB", "AQAB")];
    let cache = JwksCache::from_jwks(&keys).unwrap();
    assert!(cache.get(&"k1".to_string()).is_some());
    assert!(cache.get(&"k2".to_string()).is_some());
    assert!(cache.get(&"k3".to_string()).is_none());
}

#[test]
fn later_jwk_with_same_kid_keeps_one_entry() {
    let keys = vec![jwk("k1", TEST_RSA_N, TEST_RSA_E), jwk("k1", "AQAB", "AQAB")];
    let cache = JwksCache::from_jwks(&keys).unwrap();
    assert!(cache.get(&"k1".to_string()).is_some());
    assert!(cache.get(&"k2".to_string()).is_none());
}

#[test]
fn insert_then_get_gives_the_key() {
    let mut cache = JwksCache::new();
    assert!(cache.get(&"k1".to_string()).is_none());
    let key = jsonwebtoken::DecodingKey::from_rsa_components(TEST_RSA_N, TEST_RSA_E).unwrap();
    cache.insert("k1".to_string(), key);
    assert!(cache.get(&"k1".to_string()).is_some());
    assert!(cache.get(&"k2".to_string()).is_none());
    let other = jsonwebtoken::DecodingKey::from_rsa_components("AQAB", "AQAB").unwrap();
    cache.insert("k2".to_string(), other);
    assert!(cache.get(&"k1".to_string()).is_some());
    assert!(cache.get(&"k2".to_string()).is_some());
}

#[test]
fn failed_refresh_keeps_the_cache() {
    let mut cache = test_cache();
    cache.refresh(None);
    assert!(cache.get(&"k1".to_string()).is_some());
    cache.refresh(Some(JwksCache::new()));
    assert!(cache.get(&"k1".to_string()).is_none());
}

#[test]
fn auth_user_needs_claims() {
    let claims = Claims {
        sub: "user-1".to_string(),
        email: None,
        preferred_username: Some("alice".to_string()),
        exp: 10,
    };
    let user = AuthUser::from_extension(Some(claims)).ok().unwrap();
    assert_eq!(user.0.sub, "user-1");
    assert_eq!(user.0.preferred_username, Some("alice".to_string()));
    assert_eq!(AuthUser::from_extension(None).err().map(|e| e.status_code()), Some(401));
}

#[test]
fn signature_check_gets_the_presented_token() {
    let cache = test_cache();
    let bearer = forged_token(Some("k1"));
    let (token, _key) = signature_check_input(None, Some(bearer.clone()), &cache).ok().unwrap();
    assert_eq!(token, bearer);
    let cookie = forged_token(Some("k1"));
    let (token, _key) =
        signature_check_input(Some(cookie.clone()), Some("ignored".to_string()), &cache).ok().unwrap();
    assert_eq!(token, cookie);
}

#[test]
fn signature_check_refusals() {
    let cache = test_cache();
    assert_eq!(signature_check_input(None, None, &cache).err(), Some(ApiError::Unauthorized));
    assert_eq!(
        signature_check_input(None, Some(forged_token(None)), &cache).err(),
        Some(ApiError::Unauthorized)
    );
    assert_eq!(
        signature_check_input(None, Some(forged_token(Some("other"))), &cache).err(),
        Some(ApiError::Unauthorized)
    );
    assert_eq!(
        signature_check_input(None, Some("x.y".to_string()), &cache).err(),
        Some(ApiError::Unauthorized)
    );
}

fn values(vs: &[&str]) -> Vec<Vec<u8>> {
    vs.iter().map(|v| v.as_bytes().to_vec()).collect()
}

#[test]
fn token_cookie_is_read_from_cookie_headers() {
    let (cookie, bearer) = request_credentials(&values(&["a=1; token=abc; b=2"]), &values(&[]));
    assert_eq!(cookie, Some("abc".to_string()));
    assert_eq!(bearer, None);
    let (cookie, _) = request_credentials(&values(&["a=1", "token=xyz"]), &values(&[]));
    assert_eq!(cookie, Some("xyz".to_string()));
    let (cookie, _) = request_credentials(&values(&["tokens=1; a=token"]), &values(&[]));
    assert_eq!(cookie, None);
}

#[test]
fn bearer_credential_is_read_from_authorization_header() {
    let (cookie, bearer) = request_credentials(&values(&[]), &values(&["Bearer abc.def"]));
    assert_eq!(cookie, None);
    assert_eq!(bearer, Some("abc.def".to_string()));
    let (_, bearer) = request_credentials(&values(&[]), &values(&["Basic dXNlcjpwYXNz"]));
    assert_eq!(bearer, None);
    let (_, bearer) = request_credentials(&values(&[]), &values(&[]));
    assert_eq!(bearer, None);
}

#[test]
fn request_without_credentials_is_unauthorized() {
    let res = authenticate_request(&values(&[]), &values(&[]), &test_cache(), &oauth());
    assert_eq!(res.err(), Some(ApiError::Unauthorized));
}

#[test]
fn request_with_forged_bearer_is_unauthorized() {
    let auth = format!("Bearer {}", forged_token(Some("k1")));
    let res = authenticate_request(&values(&["other=1"]), &values(&[&auth]), &test_cache(), &oauth());
    assert_eq!(res.err(), Some(ApiError::Unauthorized));
}

#[test]
fn request_with_forged_cookie_is_unauthorized() {
    let cookie = format!("token={}", forged_token(Some("k1")));
    let res = authenticate_request(&values(&[&cookie]), &values(&["Bearer x"]), &test_cache(), &oauth());
    assert_eq!(res.err(), Some(ApiError::Unauthorized));
}
