//! Shared models: errors, request bodies and response bodies of the
//! platform's services.

pub mod auth_error;
pub mod error;
pub mod request;
pub mod response;

pub use auth_error::AuthError;
