//! The ways an authentication request can be refused.
use vstd::prelude::*;

use crate::repo::user_repo::StoreError;

verus! {

pub type Username = String;

/// A refusal that the authentication rules themselves decide.
#[derive(Debug, Clone, PartialEq, Eq)]
pub enum AuthServiceError {
    UserAlreadyExists(Username),
    BadCredentials,
    ExpiredToken,
    InvalidToken,
}

/// The text of each refusal.
pub open spec fn auth_error_message(e: AuthServiceError) -> Seq<char> {
    match e {
        AuthServiceError::UserAlreadyExists(name) => "User already exists: "@ + name@,
        AuthServiceError::BadCredentials => "Invalid credentials"@,
        AuthServiceError::ExpiredToken => "Token has expired"@,
        AuthServiceError::InvalidToken => "Invalid token"@,
    }
}

impl AuthServiceError {
    /// The text of this refusal.
    pub fn message(&self) -> (text: String)
        ensures
            text@ == auth_error_message(*self),
    {
        match self {
            AuthServiceError::UserAlreadyExists(name) => {
                let mut text = String::from_str("User already exists: ");
                text.append(name.as_str());
                text
            },
            AuthServiceError::BadCredentials => String::from_str("Invalid credentials"),
            AuthServiceError::ExpiredToken => String::from_str("Token has expired"),
            AuthServiceError::InvalidToken => String::from_str("Invalid token"),
        }
    }
}

/// Every way a service operation can end without its result.
#[derive(Debug, Clone, PartialEq, Eq)]
pub enum ServiceError {
    /// Refused by the authentication rules.
    Auth(AuthServiceError),
    /// The user store failed.
    Storage(StoreError),
    /// The password could not be hashed.
    PasswordHashing,
    /// A token was refused before its claims were checked: bad signature or
    /// format, or claims that do not parse.
    TokenRejected,
    /// A token expired more than the leeway ago; the token decoder itself
    /// refuses it.
    TokenExpired,
    /// The clock reads a time too late to add a token lifetime to.
    ClockOutOfRange,
}

} // verus!
