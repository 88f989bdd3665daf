//! The identity-verification provider's bodies.

pub use crate::models::request::sumsub::{
    AccessTokenRequest, DocumentMetadata, NewApplicantRequest, NewDocumentRequest, ProfileData,
};
pub use crate::models::response::sumsub::{
    AccessTokenResponse, ApplicantResponse, ApplicantReview, NewDocumentResponse,
};
