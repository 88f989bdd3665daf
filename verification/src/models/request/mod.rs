//! Request bodies sent to the platform's services.

pub mod sumsub;

use vstd::prelude::*;
use vstd::string::*;

verus! {

/// A refresh token to exchange.
#[derive(Debug, Clone)]
pub struct RefreshToken {
    pub refresh_token: String,
}

/// A token to check for a scope or a subject.
#[derive(Debug, Clone)]
pub struct TokenCheckRequest {
    pub token: String,
    pub scope: Option<String>,
    pub subject: Option<String>,
}

/// A token to validate.
#[derive(Debug, Clone)]
pub struct ValidateToken {
    pub token: String,
}

/// A service's access key pair.
#[derive(Debug, Clone)]
pub struct Credentials {
    pub access_key: String,
    pub secret_key: String,
}

impl Credentials {
    /// Credentials made of an access key and a secret key.
    pub fn new(access_key: String, secret_key: String) -> (r: Credentials)
        ensures
            r.access_key == access_key,
            r.secret_key == secret_key,
    {
        Credentials { access_key, secret_key }
    }
}

/// The request that checks a token for a scope.
pub fn scope_check(token: &str, scope: &str) -> (r: TokenCheckRequest)
    ensures
        r.token@ == token@,
        r.scope matches Some(s) && s@ == scope@,
        r.subject is None,
{
    TokenCheckRequest { token: token.to_owned(), scope: Some(scope.to_owned()), subject: None }
}

/// The request that checks a token for a subject.
pub fn subject_check(token: &str, subject: &str) -> (r: TokenCheckRequest)
    ensures
        r.token@ == token@,
        r.subject matches Some(s) && s@ == subject@,
        r.scope is None,
{
    TokenCheckRequest { token: token.to_owned(), scope: None, subject: Some(subject.to_owned()) }
}

} // verus!
