//! The authentication rules: creating accounts, logging in, checking and
//! refreshing tokens, and creating the first administrator.
//!
//! Reads and writes of the user store happen outside the library: each
//! operation that needs the store is a sequence of steps, and each step says
//! what to fetch or store next, or ends with the operation's result.
pub mod error;

use vstd::prelude::*;

use crate::dto::login_request_dto::LoginRequestDto;
use crate::dto::login_response_dto::{ACCESS_TOKEN_LIFETIME, LoginResponseDto, REFRESH_TOKEN_LIFETIME};
use crate::dto::register_user_request_dto::RegisterUserRequestDto;
use crate::entity::user::User;
use crate::repo::user_repo::StoreError;
use crate::service::auth_service::error::{AuthServiceError, ServiceError};
use crate::service::claims_json::{claims_json, claims_to_json};
use crate::service::clock::{now_timestamp, MAX_TIMESTAMP};
use crate::service::jwt::{
    auth_secret, decode_hs256, encode_hs256, hs256_jwt_claims, hs256_jwt_encoding, refresh_secret,
    secret_of, token_secret,
};
use crate::service::password::{
    argon2_phc_prefix, argon2_verifies, hash_password, verify_password, MAX_PASSWORD_BYTES,
};
use crate::service::seed::{is_uuid_v4_text, random_uuid};
use crate::types::jwt_payload::{JWTPayload, JWTTokenPair, JWTTokenType};

verus! {

/// Seconds by which a token may be past its expiry before the token decoder
/// itself refuses it.
pub const EXPIRY_LEEWAY: i64 = 60;

/// The token signed with `secret` for these claims.
pub open spec fn issued_token(secret: Seq<u8>, username: Seq<char>, exp: int, iat: int, seed: Seq<char>) -> Option<Seq<char>> {
    hs256_jwt_encoding(secret, claims_json(username, exp, iat, seed))
}

/// The token of a kind for a payload.
pub open spec fn payload_token(token_type: JWTTokenType, payload: JWTPayload) -> Option<Seq<char>> {
    issued_token(
        secret_of(token_type),
        payload.username@,
        payload.exp as int,
        payload.iat as int,
        payload.seed@,
    )
}

/// Signs `payload` as a token of the given kind.
pub fn encode_jwt_payload(payload: &JWTPayload, token_type: &JWTTokenType) -> (token: String)
    ensures
        Some(token@) == payload_token(*token_type, *payload),
{
    let secret = token_secret(token_type);
    let json = claims_to_json(payload.username.as_str(), payload.exp, payload.iat, payload.seed.as_str());
    match encode_hs256(secret.as_slice(), json.as_str()) {
        Some(token) => token,
        None => {
            assert(false);
            String::new()
        },
    }
}

/// A pair of tokens for `username`: an access token expiring at `exp` bound
/// to `seed` and a refresh token expiring at `ref_exp` bound to `ref_seed`,
/// both issued at `iat`.
pub fn generate_jwt_token_at(
    username: String,
    exp: i64,
    ref_exp: i64,
    seed: String,
    ref_seed: String,
    iat: i64,
) -> (res: Result<JWTTokenPair, ServiceError>)
    ensures
        res matches Ok(pair) && Some(pair.auth@) == issued_token(
            auth_secret(),
            username@,
            exp as int,
            iat as int,
            seed@,
        ) && Some(pair.refresh@) == issued_token(
            refresh_secret(),
            username@,
            ref_exp as int,
            iat as int,
            ref_seed@,
        ),
{
    let payload = JWTPayload::issued_at(username.clone(), exp, seed, iat);
    let ref_payload = JWTPayload::issued_at(username, ref_exp, ref_seed, iat);
    let auth = encode_jwt_payload(&payload, &JWTTokenType::Auth);
    let refresh = encode_jwt_payload(&ref_payload, &JWTTokenType::Refresh);
    Ok(JWTTokenPair { auth, refresh })
}

/// A pair of tokens as `generate_jwt_token_at` makes them, both issued at the
/// one time the clock reads when the claims are made.
pub fn generate_jwt_token(
    username: String,
    exp: i64,
    ref_exp: i64,
    seed: String,
    ref_seed: String,
) -> (res: Result<JWTTokenPair, ServiceError>)
    ensures
        res matches Ok(pair) && (exists|iat: i64|
            0 <= iat <= MAX_TIMESTAMP && Some(pair.auth@) == issued_token(
                auth_secret(),
                username@,
                exp as int,
                iat as int,
                seed@,
            ) && Some(pair.refresh@) == issued_token(
                refresh_secret(),
                username@,
                ref_exp as int,
                iat as int,
                ref_seed@,
            )),
{
    let payload = JWTPayload::new(username.clone(), exp, seed);
    let ref_payload = JWTPayload::issued_at(username, ref_exp, ref_seed, payload.iat);
    let auth = encode_jwt_payload(&payload, &JWTTokenType::Auth);
    let refresh = encode_jwt_payload(&ref_payload, &JWTTokenType::Refresh);
    Ok(JWTTokenPair { auth, refresh })
}

/// What a token check needs next, or how it ended.
#[derive(Debug)]
pub enum TokenCheck {
    /// Parse this claims JSON text into a `JWTPayload` and hand the result to
    /// `check_token_claims` (`None` where it does not parse).
    ParseClaims(String),
    /// Look up the user named in this payload and hand the answer to
    /// `check_token_user`.
    FetchUser(JWTPayload),
    /// The check ended with this result.
    Done(Result<JWTPayload, ServiceError>),
}

/// The seed of a user that a kind of token must carry.
pub open spec fn seed_of(user: User, token_type: JWTTokenType) -> Seq<char> {
    match token_type {
        JWTTokenType::Auth => user.token_seed@,
        JWTTokenType::Refresh => user.ref_token_seed@,
    }
}

/// First step of checking a token of the given kind: its signature and form,
/// with the secret of that kind.
pub fn decode_jwt_token(token: &str, token_type: &JWTTokenType) -> (step: TokenCheck)
    ensures
        match hs256_jwt_claims(secret_of(*token_type), token@) {
            Some(claims) => step matches TokenCheck::ParseClaims(text) && text@ == claims,
            None => step == TokenCheck::Done(Err(ServiceError::TokenRejected)),
        },
        forall|payload: JWTPayload|
            #![trigger payload_token(*token_type, payload)]
            0 <= payload.exp && payload_token(*token_type, payload) == Some(token@) ==> (
            step matches TokenCheck::ParseClaims(text) && text@ == claims_json(
                payload.username@,
                payload.exp as int,
                payload.iat as int,
                payload.seed@,
            )),
{
    let secret = token_secret(token_type);
    match decode_hs256(secret.as_slice(), token) {
        Some(claims) => TokenCheck::ParseClaims(claims),
        None => TokenCheck::Done(Err(ServiceError::TokenRejected)),
    }
}

/// How the parsed claims of a token are judged at time `now`.
pub open spec fn claims_check(parsed: Option<JWTPayload>, now: int) -> TokenCheck {
    match parsed {
        None => TokenCheck::Done(Err(ServiceError::TokenRejected)),
        Some(payload) => if payload.exp < now - EXPIRY_LEEWAY {
            TokenCheck::Done(Err(ServiceError::TokenExpired))
        } else if payload.exp < now {
            TokenCheck::Done(Err(ServiceError::Auth(AuthServiceError::ExpiredToken)))
        } else {
            TokenCheck::FetchUser(payload)
        },
    }
}

/// Second step at time `now`: a token whose claims did not parse is refused;
/// one that expired more than the leeway ago is refused by the decoder's own
/// expiry rule; one that expired within the leeway is an expired token;
/// otherwise its user is fetched.
pub fn check_token_claims_at(parsed: Option<JWTPayload>, now: i64) -> (step: TokenCheck)
    requires
        0 <= now <= MAX_TIMESTAMP,
    ensures
        step == claims_check(parsed, now as int),
{
    match parsed {
        None => TokenCheck::Done(Err(ServiceError::TokenRejected)),
        Some(payload) => {
            if payload.exp < now - EXPIRY_LEEWAY {
                TokenCheck::Done(Err(ServiceError::TokenExpired))
            } else if payload.exp < now {
                TokenCheck::Done(Err(ServiceError::Auth(AuthServiceError::ExpiredToken)))
            } else {
                TokenCheck::FetchUser(payload)
            }
        },
    }
}

/// Second step, judged at the time the clock reads.
pub fn check_token_claims(parsed: Option<JWTPayload>) -> (step: TokenCheck)
    ensures
        exists|now: int| 0 <= now <= MAX_TIMESTAMP && step == claims_check(parsed, now),
{
    let now = now_timestamp();
    check_token_claims_at(parsed, now)
}

/// How a token's payload is judged against the stored user it names.
pub open spec fn user_check(
    payload: JWTPayload,
    token_type: JWTTokenType,
    fetched: Result<Option<User>, StoreError>,
) -> Result<JWTPayload, ServiceError> {
    match fetched {
        Ok(Some(user)) => if payload.seed@ == seed_of(user, token_type) {
            Ok(payload)
        } else {
            Err(ServiceError::Auth(AuthServiceError::InvalidToken))
        },
        _ => Err(ServiceError::Auth(AuthServiceError::InvalidToken)),
    }
}

/// Last step: the token is accepted when its user exists and still has the
/// seed that the token carries; any other answer of the store makes the token
/// invalid.
pub fn check_token_user(
    payload: JWTPayload,
    token_type: &JWTTokenType,
    fetched: Result<Option<User>, StoreError>,
) -> (res: Result<JWTPayload, ServiceError>)
    ensures
        res == user_check(payload, *token_type, fetched),
{
    match fetched {
        Ok(Some(user)) => {
            let current_seed = match token_type {
                JWTTokenType::Auth => user.token_seed,
                JWTTokenType::Refresh => user.ref_token_seed,
            };
            if payload.seed == current_seed {
                Ok(payload)
            } else {
                Err(ServiceError::Auth(AuthServiceError::InvalidToken))
            }
        },
        _ => Err(ServiceError::Auth(AuthServiceError::InvalidToken)),
    }
}

/// `dto` carries the tokens issued for `user` at time `now`, and their expiry
/// times.
pub open spec fn carries_tokens_of(dto: LoginResponseDto, user: User, now: int) -> bool {
    &&& dto.username@ == user.username@
    &&& Some(dto.token@) == issued_token(
        auth_secret(),
        user.username@,
        now + ACCESS_TOKEN_LIFETIME,
        now,
        user.token_seed@,
    )
    &&& Some(dto.refresh_token@) == issued_token(
        refresh_secret(),
        user.username@,
        now + REFRESH_TOKEN_LIFETIME,
        now,
        user.ref_token_seed@,
    )
    &&& dto.expire_at == now + ACCESS_TOKEN_LIFETIME
    &&& dto.refresh_expire_at == now + REFRESH_TOKEN_LIFETIME
}

/// Tokens for `user` issued at `now`.
fn issue_tokens_at(user: &User, now: i64) -> (dto: LoginResponseDto)
    requires
        0 <= now <= MAX_TIMESTAMP - REFRESH_TOKEN_LIFETIME,
    ensures
        carries_tokens_of(dto, *user, now as int),
{
    let auth_exp = now + ACCESS_TOKEN_LIFETIME;
    let refresh_exp = now + REFRESH_TOKEN_LIFETIME;
    let tokens = generate_jwt_token_at(
        user.username.clone(),
        auth_exp,
        refresh_exp,
        user.token_seed.clone(),
        user.ref_token_seed.clone(),
        now,
    );
    match tokens {
        Ok(pair) => LoginResponseDto {
            username: user.username.clone(),
            token: pair.auth,
            refresh_token: pair.refresh,
            expire_at: auth_exp,
            refresh_expire_at: refresh_exp,
        },
        Err(_) => {
            assert(false);
            LoginResponseDto::default()
        },
    }
}

/// How a login ends at time `now`, given what the store answered for the
/// username and the bytes of the presented password.
pub open spec fn login_outcome(
    fetched: Result<Option<User>, StoreError>,
    password: Seq<u8>,
    now: int,
    res: Result<LoginResponseDto, ServiceError>,
) -> bool {
    match fetched {
        Err(e) => res == Err::<LoginResponseDto, ServiceError>(ServiceError::Storage(e)),
        Ok(None) => res == Err::<LoginResponseDto, ServiceError>(
            ServiceError::Auth(AuthServiceError::BadCredentials),
        ),
        Ok(Some(user)) => if !argon2_verifies(password, user.password_hash@) {
            res == Err::<LoginResponseDto, ServiceError>(
                ServiceError::Auth(AuthServiceError::BadCredentials),
            )
        } else if now > MAX_TIMESTAMP - REFRESH_TOKEN_LIFETIME {
            res == Err::<LoginResponseDto, ServiceError>(ServiceError::ClockOutOfRange)
        } else {
            res matches Ok(dto) && carries_tokens_of(dto, user, now)
        },
    }
}

/// Logs in at time `now`: `fetched` is what the store answered for the
/// username. An unknown user or a wrong password are bad credentials; a
/// matching password gets an access token and a refresh token.
pub fn login_at(
    fetched: Result<Option<User>, StoreError>,
    login_dto: &LoginRequestDto,
    now: i64,
) -> (res: Result<LoginResponseDto, ServiceError>)
    requires
        0 <= now <= MAX_TIMESTAMP,
    ensures
        login_outcome(fetched, vstd::utf8::encode_utf8(login_dto.password@), now as int, res),
{
    let user = match fetched {
        Err(e) => {
            return Err(ServiceError::Storage(e));
        },
        Ok(None) => {
            return Err(ServiceError::Auth(AuthServiceError::BadCredentials));
        },
        Ok(Some(user)) => user,
    };
    if !verify_password(login_dto.password.as_str(), user.password_hash.as_str()) {
        return Err(ServiceError::Auth(AuthServiceError::BadCredentials));
    }
    if now > MAX_TIMESTAMP - REFRESH_TOKEN_LIFETIME {
        return Err(ServiceError::ClockOutOfRange);
    }
    Ok(issue_tokens_at(&user, now))
}

/// Logs in at the time the clock reads.
pub fn login(fetched: Result<Option<User>, StoreError>, login_dto: &LoginRequestDto) -> (res: Result<
    LoginResponseDto,
    ServiceError,
>)
    ensures
        exists|now: int|
            0 <= now <= MAX_TIMESTAMP && login_outcome(
                fetched,
                vstd::utf8::encode_utf8(login_dto.password@),
                now,
                res,
            ),
{
    let now = now_timestamp();
    login_at(fetched, login_dto, now)
}

/// What a refresh needs next, or how it ended.
#[derive(Debug)]
pub enum RefreshStep {
    /// Look up the user named in this (checked) refresh token payload and hand
    /// the answer to `refresh_session_with_user`.
    FetchUser(JWTPayload),
    /// The refresh ended with this result.
    Done(Result<LoginResponseDto, ServiceError>),
}

/// First step of a refresh: check `ref_token` as a refresh token.
pub fn refresh_session(ref_token: &str) -> (step: TokenCheck)
    ensures
        match hs256_jwt_claims(refresh_secret(), ref_token@) {
            Some(claims) => step matches TokenCheck::ParseClaims(text) && text@ == claims,
            None => step == TokenCheck::Done(Err(ServiceError::TokenRejected)),
        },
        forall|payload: JWTPayload|
            #![trigger payload_token(JWTTokenType::Refresh, payload)]
            0 <= payload.exp && payload_token(JWTTokenType::Refresh, payload) == Some(ref_token@)
                ==> (step matches TokenCheck::ParseClaims(text) && text@ == claims_json(
                payload.username@,
                payload.exp as int,
                payload.iat as int,
                payload.seed@,
            )),
{
    decode_jwt_token(ref_token, &JWTTokenType::Refresh)
}

/// Whether a refusal of the token check says that the token expired (by the
/// decoder's rule or by the check against the clock).
pub open spec fn is_expiry_refusal(error: ServiceError) -> bool {
    error == ServiceError::TokenExpired || error == ServiceError::Auth(
        AuthServiceError::ExpiredToken,
    )
}

/// Second step, once the token check has ended: an expired token is an
/// expired token, any other refusal makes it an invalid token; an accepted
/// token's user is fetched again.
pub fn refresh_session_decoded(checked: Result<JWTPayload, ServiceError>) -> (step: RefreshStep)
    ensures
        match checked {
            Ok(payload) => step == RefreshStep::FetchUser(payload),
            Err(e) => if is_expiry_refusal(e) {
                step == RefreshStep::Done(Err(ServiceError::Auth(AuthServiceError::ExpiredToken)))
            } else {
                step == RefreshStep::Done(Err(ServiceError::Auth(AuthServiceError::InvalidToken)))
            },
        },
{
    match checked {
        Ok(payload) => RefreshStep::FetchUser(payload),
        Err(ServiceError::TokenExpired) => RefreshStep::Done(
            Err(ServiceError::Auth(AuthServiceError::ExpiredToken)),
        ),
        Err(ServiceError::Auth(AuthServiceError::ExpiredToken)) => RefreshStep::Done(
            Err(ServiceError::Auth(AuthServiceError::ExpiredToken)),
        ),
        Err(_) => RefreshStep::Done(Err(ServiceError::Auth(AuthServiceError::InvalidToken))),
    }
}

/// How a refresh ends at time `now`, given the checked payload and what the
/// store answered for its username.
pub open spec fn refresh_outcome(
    payload: JWTPayload,
    fetched: Result<Option<User>, StoreError>,
    now: int,
    res: Result<LoginResponseDto, ServiceError>,
) -> bool {
    match fetched {
        Err(e) => res == Err::<LoginResponseDto, ServiceError>(ServiceError::Storage(e)),
        Ok(None) => res == Err::<LoginResponseDto, ServiceError>(
            ServiceError::Auth(AuthServiceError::InvalidToken),
        ),
        Ok(Some(user)) => if payload.exp < now {
            res == Err::<LoginResponseDto, ServiceError>(
                ServiceError::Auth(AuthServiceError::ExpiredToken),
            )
        } else if now > MAX_TIMESTAMP - REFRESH_TOKEN_LIFETIME {
            res == Err::<LoginResponseDto, ServiceError>(ServiceError::ClockOutOfRange)
        } else {
            res matches Ok(dto) && carries_tokens_of(dto, user, now)
        },
    }
}

/// Last step of a refresh at time `now`: the user must still exist and the
/// token must not have expired; then a new pair of tokens is issued.
pub fn refresh_session_with_user_at(
    payload: JWTPayload,
    fetched: Result<Option<User>, StoreError>,
    now: i64,
) -> (res: Result<LoginResponseDto, ServiceError>)
    requires
        0 <= now <= MAX_TIMESTAMP,
    ensures
        refresh_outcome(payload, fetched, now as int, res),
{
    let user = match fetched {
        Err(e) => {
            return Err(ServiceError::Storage(e));
        },
        Ok(None) => {
            return Err(ServiceError::Auth(AuthServiceError::InvalidToken));
        },
        Ok(Some(user)) => user,
    };
    if payload.exp < now {
        return Err(ServiceError::Auth(AuthServiceError::ExpiredToken));
    }
    if now > MAX_TIMESTAMP - REFRESH_TOKEN_LIFETIME {
        return Err(ServiceError::ClockOutOfRange);
    }
    Ok(issue_tokens_at(&user, now))
}

/// Last step of a refresh at the time the clock reads.
pub fn refresh_session_with_user(payload: JWTPayload, fetched: Result<Option<User>, StoreError>) -> (res:
    Result<LoginResponseDto, ServiceError>)
    ensures
        exists|now: int|
            0 <= now <= MAX_TIMESTAMP && refresh_outcome(payload, fetched, now, res),
{
    let now = now_timestamp();
    refresh_session_with_user_at(payload, fetched, now)
}

/// What creating an account needs next, or how it ended.
#[derive(Debug)]
pub enum CreateUserStep {
    /// Ask the store whether an account with this user's username or email
    /// exists, and hand the answer to `create_user_after_lookup`.
    FindExisting(User),
    /// Store this new account and hand the answer to `create_user_after_insert`.
    Insert(User),
    /// Creating the account ended with this result.
    Done(Result<User, ServiceError>),
}

/// The flag of an optional override, false when absent.
pub open spec fn flag_or_false(flag: Option<bool>) -> bool {
    match flag {
        Some(b) => b,
        None => false,
    }
}

/// `user` is the account built for the registration request `request`, at a
/// time the clock can read; its id and token seeds are random UUID texts.
pub open spec fn built_from(user: User, request: RegisterUserRequestDto, should_reset: Option<bool>) -> bool {
    &&& user.username == request.username
    &&& user.email == request.email
    &&& argon2_verifies(vstd::utf8::encode_utf8(request.password@), user.password_hash@)
    &&& argon2_phc_prefix().is_prefix_of(user.password_hash@)
    &&& user.should_reset_password == flag_or_false(should_reset)
    &&& is_uuid_v4_text(user.id@)
    &&& is_uuid_v4_text(user.token_seed@)
    &&& is_uuid_v4_text(user.ref_token_seed@)
    &&& 0 <= user.created_at <= MAX_TIMESTAMP
    &&& user.updated_at == user.created_at
}

/// First step of creating an account: hash the password and build the
/// account (fresh id and seeds, created now); then look for a clash.
pub fn create_user(user: &RegisterUserRequestDto, should_reset_password: Option<bool>) -> (step:
    CreateUserStep)
    ensures
        step matches CreateUserStep::FindExisting(new_user) ==> built_from(
            new_user,
            *user,
            should_reset_password,
        ),
        step is FindExisting || step == CreateUserStep::Done(Err(ServiceError::PasswordHashing)),
        vstd::utf8::encode_utf8(user.password@).len() <= MAX_PASSWORD_BYTES ==> step is FindExisting,
{
    let should_reset_password = match should_reset_password {
        Some(flag) => flag,
        None => false,
    };
    let password_hash = match hash_password(user.password.as_str()) {
        Some(hash) => hash,
        None => {
            return CreateUserStep::Done(Err(ServiceError::PasswordHashing));
        },
    };
    let new_user = User::new(
        random_uuid(),
        user.username.clone(),
        user.email.clone(),
        password_hash,
        should_reset_password,
    );
    CreateUserStep::FindExisting(new_user)
}

/// Second step: an existing account with the same username or email refuses
/// the new one; otherwise it is stored.
pub fn create_user_after_lookup(user: User, existing: Result<bool, StoreError>) -> (step:
    CreateUserStep)
    ensures
        match existing {
            Err(e) => step == CreateUserStep::Done(Err(ServiceError::Storage(e))),
            Ok(true) => step == CreateUserStep::Done(
                Err(ServiceError::Auth(AuthServiceError::UserAlreadyExists(user.username))),
            ),
            Ok(false) => step == CreateUserStep::Insert(user),
        },
{
    match existing {
        Err(e) => CreateUserStep::Done(Err(ServiceError::Storage(e))),
        Ok(true) => CreateUserStep::Done(
            Err(ServiceError::Auth(AuthServiceError::UserAlreadyExists(user.username))),
        ),
        Ok(false) => CreateUserStep::Insert(user),
    }
}

/// Last step: the stored account is the result.
pub fn create_user_after_insert(user: User, inserted: Result<(), StoreError>) -> (res: Result<
    User,
    ServiceError,
>)
    ensures
        match inserted {
            Ok(()) => res == Ok::<User, ServiceError>(user),
            Err(e) => res == Err::<User, ServiceError>(ServiceError::Storage(e)),
        },
{
    match inserted {
        Ok(()) => Ok(user),
        Err(e) => Err(ServiceError::Storage(e)),
    }
}

/// What creating the first administrator needs next, or how it ended.
#[derive(Debug)]
pub enum AdminBootstrapStep {
    /// Run the account creation that starts with this step, then hand its
    /// result to `admin_bootstrap_finished`.
    Create(CreateUserStep),
    /// Nothing more to do: this is the result.
    Done(Result<(), ServiceError>),
}

/// The registration of the default administrator: "admin",
/// "admin@admin.com", with the temporary password "P@$$w0rd" given twice.
pub fn default_admin_request() -> (request: RegisterUserRequestDto)
    ensures
        request.username@ == "admin"@,
        request.email@ == "admin@admin.com"@,
        request.password@ == "P@$$w0rd"@,
        request.confirm_password@ == "P@$$w0rd"@,
{
    RegisterUserRequestDto {
        username: String::from_str("admin"),
        email: String::from_str("admin@admin.com"),
        password: String::from_str("P@$$w0rd"),
        confirm_password: String::from_str("P@$$w0rd"),
    }
}

/// Creates the default administrator, who must reset the password, when the
/// store counts no user; does nothing when it counts some.
pub fn insert_new_admin_user_if_empty(user_count: Result<i64, StoreError>) -> (step:
    AdminBootstrapStep)
    ensures
        match user_count {
            Err(e) => step == AdminBootstrapStep::Done(Err(ServiceError::Storage(e))),
            Ok(count) => if count > 0 {
                step == AdminBootstrapStep::Done(Ok(()))
            } else {
                step matches AdminBootstrapStep::Create(CreateUserStep::FindExisting(admin)) && {
                    &&& admin.username@ == "admin"@
                    &&& admin.email@ == "admin@admin.com"@
                    &&& argon2_verifies(vstd::utf8::encode_utf8("P@$$w0rd"@), admin.password_hash@)
                    &&& argon2_phc_prefix().is_prefix_of(admin.password_hash@)
                    &&& admin.should_reset_password
                    &&& is_uuid_v4_text(admin.id@)
                    &&& is_uuid_v4_text(admin.token_seed@)
                    &&& is_uuid_v4_text(admin.ref_token_seed@)
                    &&& 0 <= admin.created_at <= MAX_TIMESTAMP
                    &&& admin.updated_at == admin.created_at
                }
            },
        },
{
    match user_count {
        Err(e) => AdminBootstrapStep::Done(Err(ServiceError::Storage(e))),
        Ok(count) => {
            if count > 0 {
                AdminBootstrapStep::Done(Ok(()))
            } else {
                let request = default_admin_request();
                proof {
                    reveal_strlit("P@$$w0rd");
                    vstd::utf8::is_ascii_chars_encode_utf8(request.password@);
                }
                AdminBootstrapStep::Create(create_user(&request, Some(true)))
            }
        },
    }
}

/// Ends the creation of the administrator: its failure is the result.
pub fn admin_bootstrap_finished(created: Result<User, ServiceError>) -> (res: Result<(), ServiceError>)
    ensures
        match created {
            Ok(_) => res == Ok::<(), ServiceError>(()),
            Err(e) => res == Err::<(), ServiceError>(e),
        },
{
    match created {
        Ok(_) => Ok(()),
        Err(e) => Err(e),
    }
}

} // verus!
