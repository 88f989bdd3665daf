//! Response bodies of the platform's services.

pub mod auth;
pub mod dapp;
pub mod sumsub;
pub mod wallets;

pub use crate::models::error::{MykoboStatusCode, ServiceError};
