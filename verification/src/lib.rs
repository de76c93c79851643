//! Verified core of an OpenID Connect protected HTTP API: the decisions of the
//! authentication middleware, the JWKS key cache, the OAuth2 login and callback
//! flow, and the plain data the service exchanges.

pub mod error;
pub mod external;
pub mod schemas;
pub mod jwks;
pub mod settings;
pub mod endpoints;
pub mod middleware;
pub mod oauth;
pub mod resources;
pub mod users;
