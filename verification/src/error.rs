use vstd::prelude::*;

verus! {

/// The ways a request handled by this library can be refused, each answered
/// by one HTTP status.
#[derive(Debug, Clone, Copy, PartialEq, Eq, Structural)]
pub enum ApiError {
    /// The caller did not prove who it is (HTTP 401).
    Unauthorized,
    /// The server could not build its answer (HTTP 500).
    InternalServerError,
    /// The requested record does not exist (HTTP 404).
    NotFound,
}

/// The HTTP status code that answers a refusal.
pub open spec fn spec_status_code(e: ApiError) -> u16 {
    match e {
        ApiError::Unauthorized => 401,
        ApiError::InternalServerError => 500,
        ApiError::NotFound => 404,
    }
}

impl ApiError {
    /// The HTTP status code that answers this refusal.
    pub fn status_code(&self) -> (code: u16)
        ensures
            code == spec_status_code(*self),
    {
        match self {
            ApiError::Unauthorized => 401,
            ApiError::InternalServerError => 500,
            ApiError::NotFound => 404,
        }
    }
}

} // verus!

verus! {

/// Why a JSON Web Key Set could not become a key cache.
#[derive(Debug, Clone, Copy, PartialEq, Eq, Structural)]
pub enum JwksError {
    /// A key's RSA modulus or exponent is not valid base64url.
    InvalidJwk,
}

} // verus!
