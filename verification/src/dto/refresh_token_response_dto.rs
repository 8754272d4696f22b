//! The answer to a token refresh.
use vstd::prelude::*;

use crate::dto::login_response_dto::LoginResponseDto;
use crate::service::auth_service::error::{AuthServiceError, ServiceError};
use crate::types::base_response::{BaseResponse, ErrorResponse};

verus! {

pub type RefreshTokenResponseDto = LoginResponseDto;

/// The answer to a refresh request.
#[derive(Debug)]
pub enum RefreshTokenResponseDtoType {
    Success(BaseResponse<RefreshTokenResponseDto>),
    InvalidRefreshToken(ErrorResponse),
    InternalServerError,
}

/// Whether an error is answered as an invalid refresh token (the others are
/// answered as an internal failure).
pub open spec fn is_refresh_refusal(error: ServiceError) -> bool {
    error == ServiceError::Auth(AuthServiceError::InvalidToken) || error == ServiceError::Auth(
        AuthServiceError::ExpiredToken,
    )
}

impl RefreshTokenResponseDtoType {
    /// Success, carrying `dto`.
    pub fn ok(dto: RefreshTokenResponseDto) -> (r: Self)
        ensures
            r matches RefreshTokenResponseDtoType::Success(body) && body.data == dto && body.message@
                == "Success"@,
    {
        RefreshTokenResponseDtoType::Success(BaseResponse::from(dto))
    }

    /// Refusal with the message "Invalid refresh token".
    pub fn invalid_refresh_token() -> (r: Self)
        ensures
            r matches RefreshTokenResponseDtoType::InvalidRefreshToken(body) && body.message@
                == "Invalid refresh token"@,
    {
        RefreshTokenResponseDtoType::InvalidRefreshToken(
            ErrorResponse::from(String::from_str("Invalid refresh token")),
        )
    }

    /// The answer for an error: an invalid or expired token is refused as an
    /// invalid refresh token, anything else is an internal failure.
    pub fn from_error(error: &ServiceError) -> (r: Self)
        ensures
            is_refresh_refusal(*error) ==> (r matches RefreshTokenResponseDtoType::InvalidRefreshToken(
                body,
            ) && body.message@ == "Invalid refresh token"@),
            !is_refresh_refusal(*error) ==> r is InternalServerError,
    {
        match error {
            ServiceError::Auth(AuthServiceError::InvalidToken) => Self::invalid_refresh_token(),
            ServiceError::Auth(AuthServiceError::ExpiredToken) => Self::invalid_refresh_token(),
            _ => Self::default(),
        }
    }
}

impl Default for RefreshTokenResponseDtoType {
    /// An internal failure.
    fn default() -> (r: Self)
        ensures
            r is InternalServerError,
    {
        RefreshTokenResponseDtoType::InternalServerError
    }
}

} // verus!
