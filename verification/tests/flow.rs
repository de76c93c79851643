use api::error::ApiError;
use api::oauth::{authorize_url, session_cookie, session_cookie_header, token_request_body, SameSitePolicy};
use api::resources::{get_resource, list_resources};
use api::schemas::{code_grant_type, AuthQuery, LoginQuery, OAuth2AuthorizationCodeParams, OAuth2Token};
use api::settings::{log_filter, refresh_interval_secs, DatabaseSettings, LoggingSettings, OAuthSettings, ServerSettings, Settings};
use api::users::{get_user_response, list_users_response, DatabaseFailure, User, UserModel};

fn oauth() -> OAuthSettings {
    OAuthSettings {
        issuer_url: "http://idp.example".to_string(),
        client_id: "api-client".to_string(),
        realm: "master".to_string(),
        jwks_cache_refresh_interval_sec: None,
        redirect_url: "http://localhost:5000/auth/callback".to_string(),
    }
}

fn token(access_token: &str) -> OAuth2Token {
    OAuth2Token {
        access_token: access_token.to_string(),
        expires_in: 300,
        refresh_expires_in: 1800,
        refresh_token: "r".to_string(),
        token_type: "Bearer".to_string(),
        not_before_policy: 0,
        session_state: "s".to_string(),
        scope: "openid".to_string(),
    }
}

fn settings(logging: Option<LoggingSettings>) -> Settings {
    Settings {
        database: DatabaseSettings { url: "postgres://db".to_string() },
        logging,
        oauth: oauth(),
        server: ServerSettings { listen: "0.0.0.0:5000".to_string() },
    }
}

#[test]
fn code_grant_params_carry_the_grant_type() {
    assert_eq!(code_grant_type(), "authorization_code");
    let p = OAuth2AuthorizationCodeParams::new("cid", "the-code", "http://r");
    assert_eq!(p.client_id, "cid");
    assert_eq!(p.code, "the-code");
    assert_eq!(p.redirect_uri, "http://r");
    assert_eq!(p.grant_type, "authorization_code");
}

#[test]
fn code_grant_form_pairs_in_field_order() {
    let p = OAuth2AuthorizationCodeParams::new("cid", "c", "r");
    let pairs = p.form_pairs();
    let names: Vec<&str> = pairs.iter().map(|(k, _)| k.as_str()).collect();
    assert_eq!(names, vec!["client_id", "code", "redirect_uri", "grant_type"]);
}

#[test]
fn auth_query_form_pairs_in_field_order() {
    let q = AuthQuery { client_id: "a", redirect_uri: "b", response_type: "c", scope: "d", state: "e" };
    let pairs = q.form_pairs();
    assert_eq!(
        pairs,
        vec![
            ("client_id".to_string(), "a".to_string()),
            ("redirect_uri".to_string(), "b".to_string()),
            ("response_type".to_string(), "c".to_string()),
            ("scope".to_string(), "d".to_string()),
            ("state".to_string(), "e".to_string()),
        ]
    );
}

#[test]
fn login_redirects_to_the_authorization_endpoint() {
    let url = authorize_url(&oauth(), &LoginQuery { redirect: "../docs".to_string() }).unwrap();
    assert_eq!(
        url,
        "http://idp.example/realms/master/protocol/openid-connect/auth?client_id=api-client\
         &redirect_uri=http%3A%2F%2Flocalhost%3A5000%2Fauth%2Fcallback&response_type=code\
         &scope=email+profile+openid&state=..%2Fdocs"
    );
}

#[test]
fn token_request_body_is_form_encoded() {
    let body = token_request_body(&oauth(), "a b&c").unwrap();
    assert_eq!(
        body,
        "client_id=api-client&code=a+b%26c&redirect_uri=http%3A%2F%2Flocalhost%3A5000%2Fauth%2Fcallback\
         &grant_type=authorization_code"
    );
}

#[test]
fn session_cookie_attributes() {
    let c = session_cookie(&"abc".to_string());
    assert_eq!(c.name, "token");
    assert_eq!(c.value, "abc");
    assert!(c.http_only);
    assert!(!c.secure);
    assert_eq!(c.same_site, SameSitePolicy::Strict);
    assert_eq!(c.path, "/");
}

#[test]
fn session_cookie_header_text() {
    assert_eq!(
        session_cookie_header(&token("eyJ.abc.def")),
        Ok("token=eyJ.abc.def; HttpOnly; SameSite=Strict; Path=/".to_string())
    );
}

#[test]
fn session_cookie_with_control_character_is_unauthorized() {
    assert_eq!(session_cookie_header(&token("bad\nvalue")), Err(ApiError::Unauthorized));
    assert_eq!(ApiError::Unauthorized.status_code(), 401);
}

#[test]
fn status_codes() {
    assert_eq!(ApiError::Unauthorized.status_code(), 401);
    assert_eq!(ApiError::InternalServerError.status_code(), 500);
    assert_eq!(ApiError::NotFound.status_code(), 404);
}

#[test]
fn resources_are_listed() {
    let r = list_resources();
    assert_eq!(r.len(), 2);
    assert_eq!((r[0].id, r[0].kind.as_str()), (1, "kind1"));
    assert_eq!((r[1].id, r[1].kind.as_str()), (2, "kind2"));
}

#[test]
fn resource_lookup_keeps_the_id() {
    let r = get_resource(42);
    assert_eq!(r.id, 42);
    assert_eq!(r.kind, "kind5");
}

#[test]
fn user_shows_the_username_as_name() {
    let u = User::from(UserModel { username: "alice".to_string(), email: "a@example.org".to_string() });
    assert_eq!(u.name, "alice");
    assert_eq!(u.email, "a@example.org");
}

#[test]
fn log_filter_defaults_to_info() {
    assert_eq!(log_filter(&settings(None)), "INFO");
    assert_eq!(log_filter(&settings(Some(LoggingSettings { level: "debug".to_string() }))), "debug");
}

#[test]
fn refresh_interval_defaults_to_an_hour() {
    let mut o = oauth();
    assert_eq!(refresh_interval_secs(&o), 3600);
    o.jwks_cache_refresh_interval_sec = Some(60);
    assert_eq!(refresh_interval_secs(&o), 60);
}

fn record(name: &str) -> UserModel {
    UserModel { username: name.to_string(), email: format!("{}@example.org", name) }
}

#[test]
fn user_listing_shows_every_record_in_order() {
    let users = list_users_response(Ok(vec![record("alice"), record("bob")])).ok().unwrap();
    assert_eq!(users.len(), 2);
    assert_eq!((users[0].name.as_str(), users[0].email.as_str()), ("alice", "alice@example.org"));
    assert_eq!((users[1].name.as_str(), users[1].email.as_str()), ("bob", "bob@example.org"));
    assert!(list_users_response(Ok(vec![])).ok().unwrap().is_empty());
}

#[test]
fn user_listing_failure_is_server_error() {
    assert_eq!(list_users_response(Err(DatabaseFailure)).err(), Some(ApiError::InternalServerError));
}

#[test]
fn user_lookup_outcomes() {
    let u = get_user_response(Ok(Some(record("carol")))).ok().unwrap();
    assert_eq!(u.name, "carol");
    assert_eq!(get_user_response(Ok(None)).err(), Some(ApiError::NotFound));
    assert_eq!(get_user_response(Err(DatabaseFailure)).err(), Some(ApiError::InternalServerError));
}
