//! Tokens and token checks of the identity service.

use vstd::prelude::*;
use vstd::string::*;

verus! {

/// A service's session: its subject, its access token and refresh token.
#[derive(Debug, Clone)]
pub struct ServiceToken {
    pub subject_id: String,
    pub token: String,
    pub refresh_token: String,
}

/// The answer to a token check.
#[derive(Debug, Clone)]
pub struct TokenCheckResponse {
    pub authorised: bool,
    pub message: String,
}

/// The claims of an access token.
#[derive(Debug, Clone)]
pub struct TokenClaims {
    pub sub: String,
    pub iat: usize,
    pub exp: usize,
    pub aud: String,
    pub scope: Vec<String>,
}

} // verus!
