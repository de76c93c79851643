//! The service's settings, and the values it derives from them.

use vstd::prelude::*;

verus! {

/// How verbosely the service logs.
pub struct LoggingSettings {
    pub level: String,
}

/// Where the service listens.
pub struct ServerSettings {
    pub listen: String,
}

/// Where the service's database is.
pub struct DatabaseSettings {
    pub url: String,
}

/// The identity provider and this service's registration with it.
pub struct OAuthSettings {
    pub issuer_url: String,
    pub client_id: String,
    pub realm: String,
    pub jwks_cache_refresh_interval_sec: Option<u64>,
    pub redirect_url: String,
}

/// All of the service's settings.
pub struct Settings {
    pub database: DatabaseSettings,
    pub logging: Option<LoggingSettings>,
    pub oauth: OAuthSettings,
    pub server: ServerSettings,
}

/// The log filter used when the settings name none.
pub const DEFAULT_LOG_LEVEL: &'static str = "INFO";

/// The seconds between two refreshes of the key cache when the settings name
/// none.
pub const DEFAULT_JWKS_REFRESH_SECS: u64 = 3600;

/// The log filter that the settings ask for.
pub open spec fn spec_log_filter(settings: Settings) -> Seq<char> {
    match settings.logging {
        Some(logging) => logging.level@,
        None => DEFAULT_LOG_LEVEL@,
    }
}

/// The log filter that the settings ask for: their level, or `INFO`.
pub fn log_filter(settings: &Settings) -> (filter: String)
    ensures
        filter@ == spec_log_filter(*settings),
{
    match &settings.logging {
        Some(logging) => logging.level.clone(),
        None => DEFAULT_LOG_LEVEL.to_owned(),
    }
}

/// The seconds between two refreshes of the key cache: the configured
/// interval, or an hour.
pub fn refresh_interval_secs(oauth: &OAuthSettings) -> (secs: u64)
    ensures
        secs == match oauth.jwks_cache_refresh_interval_sec {
            Some(s) => s,
            None => DEFAULT_JWKS_REFRESH_SECS,
        },
{
    match oauth.jwks_cache_refresh_interval_sec {
        Some(s) => s,
        None => DEFAULT_JWKS_REFRESH_SECS,
    }
}

} // verus!
