//! Response bodies of the identity-verification provider.

use vstd::prelude::*;
use vstd::string::*;

verus! {

/// An access token for a user.
#[derive(Debug)]
pub struct AccessTokenResponse {
    pub token: String,
    pub user_id: String,
}

/// A document that was accepted.
#[derive(Debug)]
pub struct NewDocumentResponse {
    pub id_doc_type: String,
    pub id_doc_sub_type: Option<String>,
    pub country: String,
    pub doc_id: String,
}

/// Where an applicant's review stands.
#[derive(Debug)]
pub struct ApplicantReview {
    pub level_name: String,
    pub review_status: String,
}

/// An applicant.
#[derive(Debug)]
pub struct ApplicantResponse {
    pub id: String,
    pub external_user_id: String,
    pub inspection_id: String,
    pub created_at: String,
    pub review: Option<ApplicantReview>,
}

} // verus!
