//! The answer to a login or a refresh.
use vstd::prelude::*;

use crate::service::clock::{now_timestamp, MAX_TIMESTAMP};
use crate::types::base_response::{message_or, BaseResponse, ErrorResponse};

verus! {

/// Lifetime of an access token, in seconds (one hour).
pub const ACCESS_TOKEN_LIFETIME: i64 = 3600;

/// Lifetime of a refresh token, in seconds (fourteen days).
pub const REFRESH_TOKEN_LIFETIME: i64 = 1209600;

/// The tokens handed to a user and when each expires (Unix seconds).
#[derive(Debug, Clone, PartialEq, Eq)]
pub struct LoginResponseDto {
    pub username: String,
    pub token: String,
    pub refresh_token: String,
    pub expire_at: i64,
    pub refresh_expire_at: i64,
}

impl Default for LoginResponseDto {
    /// No user and no tokens, with the expiry times of tokens issued now.
    fn default() -> (dto: Self)
        ensures
            dto.username@ == Seq::<char>::empty(),
            dto.token@ == Seq::<char>::empty(),
            dto.refresh_token@ == Seq::<char>::empty(),
            0 <= dto.expire_at - ACCESS_TOKEN_LIFETIME <= MAX_TIMESTAMP,
            dto.refresh_expire_at == dto.expire_at - ACCESS_TOKEN_LIFETIME + REFRESH_TOKEN_LIFETIME,
    {
        let now = now_timestamp();
        LoginResponseDto {
            username: String::new(),
            token: String::new(),
            refresh_token: String::new(),
            expire_at: now + ACCESS_TOKEN_LIFETIME,
            refresh_expire_at: now + REFRESH_TOKEN_LIFETIME,
        }
    }
}

/// The answer to a login request.
#[derive(Debug)]
pub enum LoginResponseType {
    Success(BaseResponse<LoginResponseDto>),
    Unauthorized(ErrorResponse),
    InternalServerError(ErrorResponse),
}

impl LoginResponseType {
    /// Success, carrying the tokens.
    pub fn ok(response: LoginResponseDto) -> (r: Self)
        ensures
            r matches LoginResponseType::Success(body) && body.data == response && body.message@
                == "Success"@,
    {
        LoginResponseType::Success(BaseResponse::from(response))
    }

    /// Refusal, with `message` or "Unauthorized".
    pub fn unauthorized(message: Option<String>) -> (r: Self)
        ensures
            r matches LoginResponseType::Unauthorized(body) && body.message@ == message_or(
                message,
                "Unauthorized"@,
            ),
    {
        let text = match message {
            Some(m) => m,
            None => String::from_str("Unauthorized"),
        };
        LoginResponseType::Unauthorized(ErrorResponse::from(text))
    }

    /// Failure, with `message` or "Internal Server Error".
    pub fn internal_server_error(message: Option<String>) -> (r: Self)
        ensures
            r matches LoginResponseType::InternalServerError(body) && body.message@ == message_or(
                message,
                "Internal Server Error"@,
            ),
    {
        let text = match message {
            Some(m) => m,
            None => String::from_str("Internal Server Error"),
        };
        LoginResponseType::InternalServerError(ErrorResponse::from(text))
    }
}

} // verus!
