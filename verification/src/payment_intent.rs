//! The payment-intent service: payment references and its headers.

use vstd::prelude::*;
use vstd::string::*;
use crate::util::{headers_view, opt_text};

verus! {

/// A payment reference to create for a profile's wallet.
#[derive(Debug, Clone)]
pub struct CreateReferenceRequest {
    pub profile_id: String,
    pub wallet_address: String,
    pub client_domain: Option<String>,
}

/// A payment reference.
#[derive(Debug, Clone)]
pub struct ReferenceResponse {
    pub id: String,
    pub profile_id: String,
    pub reference: String,
    pub is_active: bool,
    pub wallet_address: String,
    pub client_domain: Option<String>,
    pub created_at: String,
}

/// The service's health.
#[derive(Debug, Clone)]
pub struct HealthResponse {
    pub status: String,
    pub message: String,
}

/// The headers of a call made for a user: the user's bearer token, the
/// client's identifier as user agent when there is one, and JSON.
pub open spec fn spec_user_headers(user_token: Seq<char>, client_id: Option<Seq<char>>) -> Seq<(Seq<char>, Seq<char>)> {
    let agent: Seq<(Seq<char>, Seq<char>)> = match client_id {
        Some(c) => seq![("user-agent"@, c)],
        None => seq![],
    };
    seq![("authorization"@, "Bearer "@ + user_token)] + agent + seq![
        ("content-type"@, "application/json"@),
    ]
}

/// Builds the headers of a call made for a user.
pub fn build_headers(user_token: &str, client_identifier: &Option<String>) -> (r: Vec<(String, String)>)
    ensures
        headers_view(r@) == spec_user_headers(user_token@, opt_text(*client_identifier)),
{
    let mut r: Vec<(String, String)> = Vec::new();
    let mut v = "Bearer ".to_owned();
    v.append(user_token);
    r.push(("authorization".to_owned(), v));
    match client_identifier {
        Some(c) => r.push(("user-agent".to_owned(), c.clone())),
        None => {},
    }
    r.push(("content-type".to_owned(), "application/json".to_owned()));
    assert(headers_view(r@) =~= spec_user_headers(user_token@, opt_text(*client_identifier)));
    r
}

} // verus!
