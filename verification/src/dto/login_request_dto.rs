//! The body of a login request.
use vstd::prelude::*;

verus! {

/// Credentials presented at login.
#[derive(Debug, Clone, PartialEq, Eq)]
pub struct LoginRequestDto {
    pub username: String,
    pub password: String,
}

} // verus!
