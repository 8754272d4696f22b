//! The body of a registration request.
use vstd::prelude::*;

verus! {

/// What a new user submits: the password is given twice.
#[derive(Debug, Clone, PartialEq, Eq)]
pub struct RegisterUserRequestDto {
    pub username: String,
    pub email: String,
    pub password: String,
    pub confirm_password: String,
}

} // verus!
