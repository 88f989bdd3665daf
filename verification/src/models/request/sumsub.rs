//! Request bodies of the identity-verification provider.

use vstd::prelude::*;
use vstd::string::*;

verus! {

/// Asks for an access token for a user at a verification level.
#[derive(Debug)]
pub struct AccessTokenRequest {
    pub external_user_id: String,
    pub level_name: String,
}

/// The personal data of a new applicant.
#[derive(Debug)]
pub struct ProfileData {
    pub first_name: String,
    pub last_name: String,
    pub email: String,
}

/// Creates an applicant.
#[derive(Debug)]
pub struct NewApplicantRequest {
    pub external_user_id: String,
    pub level_name: String,
    pub profile: ProfileData,
}

/// What a submitted document is.
#[derive(Debug)]
pub struct DocumentMetadata {
    pub id_doc_type: String,
    pub id_doc_sub_type: String,
    pub country: String,
}

/// Submits a document file for an applicant.
#[derive(Debug)]
pub struct NewDocumentRequest {
    pub metadata: DocumentMetadata,
    pub file_path: String,
    pub applicant_id: String,
}

} // verus!
