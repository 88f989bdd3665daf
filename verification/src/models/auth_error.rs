//! The error of a failed authentication.

use vstd::prelude::*;
use vstd::string::*;

verus! {

/// An authentication failure and its message.
#[derive(Debug, Clone)]
pub struct AuthError {
    pub message: String,
}

impl AuthError {
    /// An authentication error with the given message.
    pub fn new(message: String) -> (r: AuthError)
        ensures
            r.message == message,
    {
        AuthError { message }
    }
}

} // verus!
