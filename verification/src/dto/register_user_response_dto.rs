//! The answer to a registration request.
use vstd::prelude::*;

use crate::types::base_response::{message_or, BaseResponse, ErrorResponse};

verus! {

/// The account that was created.
#[derive(Debug, Clone, PartialEq, Eq)]
pub struct RegisterUserResponseDto {
    pub username: String,
    pub success: bool,
}

impl RegisterUserResponseDto {
    /// A successful registration of `username`.
    pub fn new(username: String) -> (dto: Self)
        ensures
            dto.username == username,
            dto.success,
    {
        Self { username, success: true }
    }
}

/// The answer to a registration request.
#[derive(Debug)]
pub enum RegisterUserResponseType {
    Success(BaseResponse<RegisterUserResponseDto>),
    BadRequest(ErrorResponse),
    Conflict(ErrorResponse),
    InternalServerError(ErrorResponse),
}

impl RegisterUserResponseType {
    /// Success for `username`.
    pub fn ok(username: String) -> (r: Self)
        ensures
            r matches RegisterUserResponseType::Success(body) && body.data.username == username
                && body.data.success && body.message@ == "Success"@,
    {
        Self::Success(BaseResponse::from(RegisterUserResponseDto { username, success: true }))
    }

    /// A malformed request, with `msg` or "Bad request".
    pub fn bad_request(msg: Option<String>) -> (r: Self)
        ensures
            r matches RegisterUserResponseType::BadRequest(body) && body.message@ == message_or(
                msg,
                "Bad request"@,
            ),
    {
        let msg = match msg {
            Some(m) => m,
            None => String::from_str("Bad request"),
        };
        Self::BadRequest(ErrorResponse::from(msg))
    }

    /// The account exists already, with `msg` or "Conflict".
    pub fn conflict(msg: Option<String>) -> (r: Self)
        ensures
            r matches RegisterUserResponseType::Conflict(body) && body.message@ == message_or(
                msg,
                "Conflict"@,
            ),
    {
        let msg = match msg {
            Some(m) => m,
            None => String::from_str("Conflict"),
        };
        Self::Conflict(ErrorResponse::from(msg))
    }

    /// Failure, with `msg` or "Internal server error".
    pub fn internal_server_err(msg: Option<String>) -> (r: Self)
        ensures
            r matches RegisterUserResponseType::InternalServerError(body) && body.message@
                == message_or(msg, "Internal server error"@),
    {
        let msg = match msg {
            Some(m) => m,
            None => String::from_str("Internal server error"),
        };
        Self::InternalServerError(ErrorResponse::from(msg))
    }
}

} // verus!
