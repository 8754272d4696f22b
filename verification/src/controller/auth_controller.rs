//! The decisions of the authentication endpoints: what a request is answered
//! with, given what the service did.
use vstd::prelude::*;

use crate::dto::login_response_dto::{LoginResponseDto, LoginResponseType};
use crate::dto::refresh_token_response_dto::{is_refresh_refusal, RefreshTokenResponseDtoType};
use crate::dto::register_user_request_dto::RegisterUserRequestDto;
use crate::dto::register_user_response_dto::RegisterUserResponseType;
use crate::entity::user::User;
use crate::service::auth_service::error::{auth_error_message, AuthServiceError, ServiceError};
use crate::service::auth_service::{built_from, create_user, CreateUserStep};
use crate::service::password::MAX_PASSWORD_BYTES;

verus! {

/// The authentication endpoints.
#[derive(Debug, Clone, Copy)]
pub struct AuthController;

/// How a registration request starts: answered at once, or passed on to the
/// account creation that starts with the given step.
#[derive(Debug)]
pub enum RegistrationStart {
    Respond(RegisterUserResponseType),
    Proceed(CreateUserStep),
}

/// Shortest accepted password, in bytes.
pub const MIN_PASSWORD_LENGTH: usize = 8;

impl AuthController {
    /// Register user: the two passwords must be equal and at least eight
    /// bytes long; then the account creation starts.
    pub fn register_user(&self, body: &RegisterUserRequestDto) -> (start: RegistrationStart)
        ensures
            body.password@ != body.confirm_password@ ==> (start matches RegistrationStart::Respond(
                RegisterUserResponseType::BadRequest(e),
            ) && e.message@ == "Password and confirm password do not match"@),
            body.password@ == body.confirm_password@ && vstd::utf8::encode_utf8(body.password@).len()
                < MIN_PASSWORD_LENGTH ==> (start matches RegistrationStart::Respond(
                RegisterUserResponseType::BadRequest(e),
            ) && e.message@ == "Password must be at least 8 characters long"@),
            body.password@ == body.confirm_password@ && vstd::utf8::encode_utf8(body.password@).len()
                >= MIN_PASSWORD_LENGTH ==> (start matches RegistrationStart::Proceed(step) && (
            step is FindExisting || step == CreateUserStep::Done(Err(ServiceError::PasswordHashing)))
                && (step matches CreateUserStep::FindExisting(user) ==> built_from(
                user,
                *body,
                None,
            )) && (vstd::utf8::encode_utf8(body.password@).len() <= MAX_PASSWORD_BYTES
                ==> step is FindExisting)),
    {
        if !(body.password == body.confirm_password) {
            return RegistrationStart::Respond(
                RegisterUserResponseType::bad_request(
                    Some(String::from_str("Password and confirm password do not match")),
                ),
            );
        }
        if body.password.as_str().as_bytes().len() < MIN_PASSWORD_LENGTH {
            return RegistrationStart::Respond(
                RegisterUserResponseType::bad_request(
                    Some(String::from_str("Password must be at least 8 characters long")),
                ),
            );
        }
        RegistrationStart::Proceed(create_user(body, None))
    }

    /// The answer to a registration once the account creation has ended: the
    /// new username, a conflict for an existing account, or an internal
    /// failure.
    pub fn register_response(&self, result: Result<User, ServiceError>) -> (response:
        RegisterUserResponseType)
        ensures
            match result {
                Ok(user) => response matches RegisterUserResponseType::Success(body)
                    && body.data.username == user.username && body.data.success && body.message@
                    == "Success"@,
                Err(ServiceError::Auth(AuthServiceError::UserAlreadyExists(name))) => response matches RegisterUserResponseType::Conflict(
                    e,
                ) && e.message@ == auth_error_message(AuthServiceError::UserAlreadyExists(name)),
                Err(_) => response matches RegisterUserResponseType::InternalServerError(e)
                    && e.message@ == "Internal server error"@,
            },
    {
        match result {
            Ok(user) => RegisterUserResponseType::ok(user.username),
            Err(ServiceError::Auth(error)) => match error {
                AuthServiceError::UserAlreadyExists(_) => RegisterUserResponseType::conflict(
                    Some(error.message()),
                ),
                _ => RegisterUserResponseType::internal_server_err(None),
            },
            Err(_) => RegisterUserResponseType::internal_server_err(None),
        }
    }

    /// The answer to a login once the service has ended: the tokens, a refusal
    /// for bad credentials, or an internal failure.
    pub fn login_user(&self, result: Result<LoginResponseDto, ServiceError>) -> (response:
        LoginResponseType)
        ensures
            match result {
                Ok(dto) => response matches LoginResponseType::Success(body) && body.data == dto
                    && body.message@ == "Success"@,
                Err(ServiceError::Auth(AuthServiceError::BadCredentials)) => response matches LoginResponseType::Unauthorized(
                    e,
                ) && e.message@ == "Unauthorized"@,
                Err(_) => response matches LoginResponseType::InternalServerError(e) && e.message@
                    == "Internal Server Error"@,
            },
    {
        match result {
            Ok(dto) => LoginResponseType::ok(dto),
            Err(ServiceError::Auth(AuthServiceError::BadCredentials)) => LoginResponseType::unauthorized(None),
            Err(_) => LoginResponseType::internal_server_error(None),
        }
    }

    /// Refresh token endpoint: a successful refresh is answered with the new
    /// tokens; an invalid or expired token is refused, anything else is an
    /// internal failure.
    pub fn refresh_token(&self, result: Result<LoginResponseDto, ServiceError>) -> (response:
        RefreshTokenResponseDtoType)
        ensures
            match result {
                Ok(dto) => response matches RefreshTokenResponseDtoType::Success(body)
                    && body.data == dto && body.message@ == "Success"@,
                Err(e) => if is_refresh_refusal(e) {
                    response matches RefreshTokenResponseDtoType::InvalidRefreshToken(body)
                        && body.message@ == "Invalid refresh token"@
                } else {
                    response is InternalServerError
                },
            },
    {
        match result {
            Ok(dto) => RefreshTokenResponseDtoType::ok(dto),
            Err(e) => RefreshTokenResponseDtoType::from_error(&e),
        }
    }

    /// This is protected endpoint: greets the holder of `token`.
    pub fn protected_hello(&self, token: &str) -> (text: String)
        ensures
            text@ == "Hello, Protected World! Your token is: "@ + token@,
    {
        let mut text = String::from_str("Hello, Protected World! Your token is: ");
        text.append(token);
        text
    }
}

} // verus!
