//! The identity provider's URLs, all derived from its base URL and realm.

use vstd::prelude::*;
use crate::settings::OAuthSettings;

verus! {

/// The path that separates a realm's URL from its OpenID Connect endpoints.
pub const OPENID_CONNECT_PATH: &'static str = "/protocol/openid-connect/";

/// The URL of `realm` at the identity provider at `issuer_url`; it is also
/// the issuer that the realm's tokens name.
pub open spec fn spec_realm_url(issuer_url: Seq<char>, realm: Seq<char>) -> Seq<char> {
    issuer_url + "/realms/"@ + realm
}

/// The URL of the OpenID Connect endpoint `name` of `realm`.
pub open spec fn spec_endpoint_url(issuer_url: Seq<char>, realm: Seq<char>, name: Seq<char>) -> Seq<char> {
    spec_realm_url(issuer_url, realm) + OPENID_CONNECT_PATH@ + name
}

/// The URL of `realm` at the identity provider at `issuer_url`.
pub fn realm_url(issuer_url: &str, realm: &str) -> (url: String)
    ensures
        url@ == spec_realm_url(issuer_url@, realm@),
{
    let mut url = issuer_url.to_owned();
    url.append("/realms/");
    url.append(realm);
    url
}

/// The URL of the OpenID Connect endpoint `name` of `realm`.
fn endpoint_url(issuer_url: &str, realm: &str, name: &str) -> (url: String)
    ensures
        url@ == spec_endpoint_url(issuer_url@, realm@, name@),
{
    let mut url = realm_url(issuer_url, realm);
    url.append(OPENID_CONNECT_PATH);
    url.append(name);
    url
}

/// The URL of the realm's key set.
pub fn certs_url(base_url: &str, realm: &str) -> (url: String)
    ensures
        url@ == spec_endpoint_url(base_url@, realm@, "certs"@),
{
    endpoint_url(base_url, realm, "certs")
}

/// The URL of the realm's authorization endpoint.
pub fn authorization_endpoint(oauth: &OAuthSettings) -> (url: String)
    ensures
        url@ == spec_endpoint_url(oauth.issuer_url@, oauth.realm@, "auth"@),
{
    endpoint_url(oauth.issuer_url.as_str(), oauth.realm.as_str(), "auth")
}

/// The URL of the realm's token endpoint.
pub fn token_endpoint(oauth: &OAuthSettings) -> (url: String)
    ensures
        url@ == spec_endpoint_url(oauth.issuer_url@, oauth.realm@, "token"@),
{
    endpoint_url(oauth.issuer_url.as_str(), oauth.realm.as_str(), "token")
}

/// Law: every endpoint URL begins with the realm's URL, which is the issuer
/// that tokens are checked against, followed by `/protocol/openid-connect/`;
/// endpoints of one realm differ only after that prefix.
pub proof fn law_endpoints_extend_realm(issuer_url: Seq<char>, realm: Seq<char>, name: Seq<char>)
    ensures
        ({
            let prefix = spec_realm_url(issuer_url, realm) + OPENID_CONNECT_PATH@;
            &&& spec_endpoint_url(issuer_url, realm, name).subrange(0, prefix.len() as int) == prefix
            &&& spec_endpoint_url(issuer_url, realm, name).subrange(
                prefix.len() as int,
                spec_endpoint_url(issuer_url, realm, name).len() as int,
            ) == name
        }),
{
    let prefix = spec_realm_url(issuer_url, realm) + OPENID_CONNECT_PATH@;
    assert(spec_endpoint_url(issuer_url, realm, name) == prefix + name);
    assert((prefix + name).subrange(0, prefix.len() as int) =~= prefix);
    assert((prefix + name).subrange(prefix.len() as int, (prefix + name).len() as int) =~= name);
}

/// Law: the URL of a realm is the identity provider's URL, then `/realms/`,
/// then the realm's name, with nothing left out or added.
pub proof fn law_realm_url_names_realm(issuer_url: Seq<char>, realm: Seq<char>)
    ensures
        spec_realm_url(issuer_url, realm) == issuer_url + seq!['/', 'r', 'e', 'a', 'l', 'm', 's', '/']
            + realm,
        spec_realm_url(issuer_url, realm).len() == issuer_url.len() + 8 + realm.len(),
        spec_realm_url(issuer_url, realm).subrange(0, issuer_url.len() as int) == issuer_url,
        spec_realm_url(issuer_url, realm).subrange(
            (issuer_url.len() + 8) as int,
            spec_realm_url(issuer_url, realm).len() as int,
        ) == realm,
{
    reveal_strlit("/realms/");
    let sep = seq!['/', 'r', 'e', 'a', 'l', 'm', 's', '/'];
    assert("/realms/"@ =~= sep);
    let url = issuer_url + sep + realm;
    assert(url.subrange(0, issuer_url.len() as int) =~= issuer_url);
    assert(url.subrange((issuer_url.len() + 8) as int, url.len() as int) =~= realm);
}

/// Law: at one identity provider, two different realms have different URLs,
/// so their keys, issuers and endpoints are never confused.
pub proof fn law_realm_url_distinguishes_realms(issuer_url: Seq<char>, realm: Seq<char>, other: Seq<char>)
    requires
        realm != other,
    ensures
        spec_realm_url(issuer_url, realm) != spec_realm_url(issuer_url, other),
        spec_endpoint_url(issuer_url, realm, "certs"@) != spec_endpoint_url(issuer_url, other, "certs"@),
{
    law_realm_url_names_realm(issuer_url, realm);
    law_realm_url_names_realm(issuer_url, other);
    let sep = seq!['/', 'r', 'e', 'a', 'l', 'm', 's', '/'];
    let rest = OPENID_CONNECT_PATH@ + "certs"@;
    let a = issuer_url + sep + realm;
    let b = issuer_url + sep + other;
    assert(spec_endpoint_url(issuer_url, realm, "certs"@) =~= a + rest);
    assert(spec_endpoint_url(issuer_url, other, "certs"@) =~= b + rest);
    if a + rest == b + rest {
        assert((a + rest).subrange(0, a.len() as int) =~= a);
        assert((b + rest).subrange(0, b.len() as int) =~= b);
        assert(a.len() == b.len());
        assert(a == b);
    }
    if a == b {
        assert(a.subrange((issuer_url.len() + 8) as int, a.len() as int) == realm);
        assert(b.subrange((issuer_url.len() + 8) as int, b.len() as int) == other);
    }
}

/// Law: the key set, authorization and token URLs of a realm are the realm's
/// URL followed by `/protocol/openid-connect/` and the endpoint's name.
pub proof fn law_endpoint_urls_of_realm(issuer_url: Seq<char>, realm: Seq<char>, name: Seq<char>)
    ensures
        spec_endpoint_url(issuer_url, realm, name) == issuer_url + seq![
            '/',
            'r',
            'e',
            'a',
            'l',
            'm',
            's',
            '/',
        ] + realm + seq![
            '/',
            'p',
            'r',
            'o',
            't',
            'o',
            'c',
            'o',
            'l',
            '/',
            'o',
            'p',
            'e',
            'n',
            'i',
            'd',
            '-',
            'c',
            'o',
            'n',
            'n',
            'e',
            'c',
            't',
            '/',
        ] + name,
{
    law_realm_url_names_realm(issuer_url, realm);
    reveal_strlit("/protocol/openid-connect/");
    assert(OPENID_CONNECT_PATH@ =~= seq![
        '/',
        'p',
        'r',
        'o',
        't',
        'o',
        'c',
        'o',
        'l',
        '/',
        'o',
        'p',
        'e',
        'n',
        'i',
        'd',
        '-',
        'c',
        'o',
        'n',
        'n',
        'e',
        'c',
        't',
        '/',
    ]);
}

} // verus!
