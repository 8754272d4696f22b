//! Properties of the authentication rules that span several steps.
use vstd::prelude::*;

use crate::dto::login_response_dto::{LoginResponseDto, ACCESS_TOKEN_LIFETIME, REFRESH_TOKEN_LIFETIME};
use crate::dto::refresh_token_response_dto::is_refresh_refusal;
use crate::dto::register_user_request_dto::RegisterUserRequestDto;
use crate::entity::user::User;
use crate::repo::user_repo::StoreError;
use crate::service::auth_service::error::{AuthServiceError, ServiceError};
use crate::service::auth_service::{
    built_from, carries_tokens_of, claims_check, issued_token, login_outcome, payload_token,
    refresh_outcome, seed_of, user_check, TokenCheck,
};
use crate::service::jwt::secret_of;
use crate::service::password::argon2_phc_prefix;
use crate::service::clock::MAX_TIMESTAMP;
use crate::service::password::argon2_verifies;
use crate::types::jwt_payload::{JWTPayload, JWTTokenType};

verus! {

/// A user who registered with a password logs in with that password: the
/// login hands out the user's tokens (at any time at which tokens can be
/// issued).
pub proof fn lemma_registered_password_logs_in(
    request: RegisterUserRequestDto,
    should_reset: Option<bool>,
    user: User,
    now: int,
    res: Result<LoginResponseDto, ServiceError>,
)
    requires
        built_from(user, request, should_reset),
        0 <= now <= MAX_TIMESTAMP - REFRESH_TOKEN_LIFETIME,
        login_outcome(Ok(Some(user)), vstd::utf8::encode_utf8(request.password@), now, res),
    ensures
        res matches Ok(dto) && carries_tokens_of(dto, user, now),
{
}

/// A password that does not verify against the stored hash is refused as bad
/// credentials, whatever the time.
pub proof fn lemma_wrong_password_refused(
    user: User,
    password: Seq<u8>,
    now: int,
    res: Result<LoginResponseDto, ServiceError>,
)
    requires
        !argon2_verifies(password, user.password_hash@),
        login_outcome(Ok(Some(user)), password, now, res),
    ensures
        res == Err::<LoginResponseDto, ServiceError>(
            ServiceError::Auth(AuthServiceError::BadCredentials),
        ),
{
}

/// A token whose claims name a user who still holds the token's seed is
/// accepted at every time from its issue until its expiry.
pub proof fn lemma_token_accepted_until_expiry(
    payload: JWTPayload,
    token_type: JWTTokenType,
    user: User,
    issued: int,
    now: int,
)
    requires
        payload.seed@ == seed_of(user, token_type),
        payload.iat == issued,
        issued <= now <= payload.exp,
    ensures
        claims_check(Some(payload), now) == TokenCheck::FetchUser(payload),
        user_check(payload, token_type, Ok(Some(user))) == Ok::<JWTPayload, ServiceError>(payload),
{
}

/// A token is never accepted after its expiry: its claims check ends in a
/// refusal without looking up the user.
pub proof fn lemma_expired_token_refused(payload: JWTPayload, now: int)
    requires
        payload.exp < now,
    ensures
        claims_check(Some(payload), now) matches TokenCheck::Done(Err(_)),
{
}

/// A token stops being accepted once its user no longer holds the seed it
/// carries (the seed was changed), or the user is gone.
pub proof fn lemma_changed_seed_invalidates_token(
    payload: JWTPayload,
    token_type: JWTTokenType,
    fetched: Result<Option<User>, StoreError>,
)
    requires
        !(fetched matches Ok(Some(user)) && payload.seed@ == seed_of(user, token_type)),
    ensures
        user_check(payload, token_type, fetched) == Err::<JWTPayload, ServiceError>(
            ServiceError::Auth(AuthServiceError::InvalidToken),
        ),
{
}

/// A refresh whose user is found fails with an answer of "invalid refresh
/// token" exactly when the token has expired; a failure of the store is an
/// internal failure instead.
pub proof fn lemma_refresh_refusal_answers(
    payload: JWTPayload,
    fetched: Result<Option<User>, StoreError>,
    now: int,
    res: Result<LoginResponseDto, ServiceError>,
)
    requires
        0 <= now <= MAX_TIMESTAMP - REFRESH_TOKEN_LIFETIME,
        refresh_outcome(payload, fetched, now, res),
    ensures
        fetched is Err ==> (res matches Err(e) && !is_refresh_refusal(e)),
        fetched matches Ok(None) ==> (res matches Err(e) && is_refresh_refusal(e)),
        fetched matches Ok(Some(_)) ==> (res is Err <==> payload.exp < now),
        fetched is Ok ==> (res matches Err(e) ==> is_refresh_refusal(e)),
{
}

/// Tokens issued together expire one hour (access) and fourteen days
/// (refresh) after their issue.
pub proof fn lemma_issued_expiries(dto: LoginResponseDto, user: User, now: int)
    requires
        carries_tokens_of(dto, user, now),
    ensures
        dto.expire_at == now + ACCESS_TOKEN_LIFETIME,
        dto.refresh_expire_at == now + REFRESH_TOKEN_LIFETIME,
        dto.refresh_expire_at - dto.expire_at == REFRESH_TOKEN_LIFETIME - ACCESS_TOKEN_LIFETIME,
{
}

/// A token issued with a kind's secret for a user's name and that kind's
/// seed is the token of the payload its claims parse back to, and that payload
/// passes both checks of that kind up to its expiry while the user keeps the
/// seed. (`decode_jwt_token` hands on the token's claims text; the server
/// parses it into `parsed`.)
pub proof fn lemma_issued_token_accepted(
    token_type: JWTTokenType,
    token: Seq<char>,
    parsed: JWTPayload,
    user: User,
    now: int,
)
    requires
        Some(token) == issued_token(
            secret_of(token_type),
            parsed.username@,
            parsed.exp as int,
            parsed.iat as int,
            parsed.seed@,
        ),
        parsed.username@ == user.username@,
        parsed.seed@ == seed_of(user, token_type),
        now <= parsed.exp,
    ensures
        payload_token(token_type, parsed) == Some(token),
        claims_check(Some(parsed), now) == TokenCheck::FetchUser(parsed),
        user_check(parsed, token_type, Ok(Some(user))) == Ok::<JWTPayload, ServiceError>(parsed),
{
}

/// After a login at `issued`, the refresh token it handed out is the token of
/// the payload its claims parse back to; at any later time up to that token's
/// expiry, with the user unchanged in the store, the token passes the refresh
/// token check and the refresh issues new tokens for the same user, the
/// refresh token expiring fourteen days after the refresh.
pub proof fn lemma_refresh_after_login(
    user: User,
    password: Seq<u8>,
    issued: int,
    login_res: Result<LoginResponseDto, ServiceError>,
    parsed: JWTPayload,
    later: int,
    refresh_res: Result<LoginResponseDto, ServiceError>,
)
    requires
        login_outcome(Ok(Some(user)), password, issued, login_res),
        login_res is Ok,
        parsed.username@ == user.username@,
        parsed.exp == issued + REFRESH_TOKEN_LIFETIME,
        parsed.iat == issued,
        parsed.seed@ == user.ref_token_seed@,
        issued <= later <= parsed.exp,
        later <= MAX_TIMESTAMP - REFRESH_TOKEN_LIFETIME,
        refresh_outcome(parsed, Ok(Some(user)), later, refresh_res),
    ensures
        login_res matches Ok(dto) && Some(dto.refresh_token@) == payload_token(
            JWTTokenType::Refresh,
            parsed,
        ),
        claims_check(Some(parsed), later) == TokenCheck::FetchUser(parsed),
        user_check(parsed, JWTTokenType::Refresh, Ok(Some(user))) == Ok::<JWTPayload, ServiceError>(
            parsed,
        ),
        refresh_res matches Ok(fresh) && fresh.username@ == user.username@ && fresh.refresh_expire_at
            == later + REFRESH_TOKEN_LIFETIME && carries_tokens_of(fresh, user, later),
{
}

/// The stored hash of an account is never the password itself, unless the
/// password begins with the PHC prefix that every hash begins with.
pub proof fn lemma_hash_is_not_the_password(
    request: RegisterUserRequestDto,
    should_reset: Option<bool>,
    user: User,
)
    requires
        built_from(user, request, should_reset),
        !argon2_phc_prefix().is_prefix_of(request.password@),
    ensures
        user.password_hash@ != request.password@,
{
}

/// The hash stored for a new account verifies against the password it was
/// registered with.
pub proof fn lemma_stored_hash_verifies(
    request: RegisterUserRequestDto,
    should_reset: Option<bool>,
    user: User,
)
    requires
        built_from(user, request, should_reset),
    ensures
        argon2_verifies(vstd::utf8::encode_utf8(request.password@), user.password_hash@),
{
}

} // verus!
