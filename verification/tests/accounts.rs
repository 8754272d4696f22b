use inventarium::dto::login_request_dto::LoginRequestDto;
use inventarium::dto::login_response_dto::{ACCESS_TOKEN_LIFETIME, REFRESH_TOKEN_LIFETIME};
use inventarium::dto::register_user_request_dto::RegisterUserRequestDto;
use inventarium::entity::user::User;
use inventarium::repo::user_repo::StoreError;
use inventarium::service::auth_service::error::{AuthServiceError, ServiceError};
use inventarium::service::auth_service::{
    admin_bootstrap_finished, check_token_claims_at, check_token_user, create_user, create_user_after_insert, create_user_after_lookup,
    decode_jwt_token, default_admin_request, insert_new_admin_user_if_empty, login, login_at,
    refresh_session, refresh_session_decoded, refresh_session_with_user,
    refresh_session_with_user_at, AdminBootstrapStep, CreateUserStep, RefreshStep, TokenCheck,
};
use inventarium::service::claims_json::claims_to_json;
use inventarium::service::clock::MAX_TIMESTAMP;
use inventarium::types::jwt_payload::{JWTPayload, JWTTokenType};

fn request(username: &str, email: &str, password: &str) -> RegisterUserRequestDto {
    RegisterUserRequestDto {
        username: username.to_string(),
        email: email.to_string(),
        password: password.to_string(),
        confirm_password: password.to_string(),
    }
}

fn registered(username: &str, password: &str) -> User {
    match create_user(&request(username, &format!("{}@example.com", username), password), None) {
        CreateUserStep::FindExisting(user) => user,
        other => panic!("account not built: {:?}", other),
    }
}

fn store_error() -> StoreError {
    StoreError { message: "database is locked".to_string() }
}

#[test]
fn create_user_builds_the_account() {
    let user = registered("carol", "correct horse");
    assert_eq!(user.username, "carol");
    assert_eq!(user.email, "carol@example.com");
    assert!(!user.should_reset_password);
    assert!(user.password_hash.starts_with("$argon2id$v=19$m=19456,t=2,p=1$"));
    for id in [&user.id, &user.token_seed, &user.ref_token_seed] {
        assert_eq!(id.len(), 36);
        assert_eq!(id.as_bytes()[14], b'4');
        assert!(id.chars().all(|c| c == '-' || c.is_ascii_digit() || ('a'..='f').contains(&c)));
    }
    assert!(!user.password_hash.contains("correct horse"));
    assert_eq!(user.token_seed.len(), 36);
    assert_ne!(user.token_seed, user.ref_token_seed);
    assert_eq!(user.created_at, user.updated_at);
}

#[test]
fn create_user_respects_reset_flag() {
    match create_user(&request("dave", "d@example.com", "password1"), Some(true)) {
        CreateUserStep::FindExisting(user) => assert!(user.should_reset_password),
        other => panic!("account not built: {:?}", other),
    }
}

#[test]
fn existing_account_is_a_conflict() {
    let user = User::new("1".into(), "erin".into(), "e@x".into(), "h".into(), false);
    match create_user_after_lookup(user.clone(), Ok(true)) {
        CreateUserStep::Done(Err(e)) => {
            assert_eq!(e, ServiceError::Auth(AuthServiceError::UserAlreadyExists("erin".to_string())))
        }
        other => panic!("{:?}", other),
    }
    match create_user_after_lookup(user.clone(), Ok(false)) {
        CreateUserStep::Insert(u) => assert_eq!(u, user),
        other => panic!("{:?}", other),
    }
    match create_user_after_lookup(user.clone(), Err(store_error())) {
        CreateUserStep::Done(Err(e)) => assert_eq!(e, ServiceError::Storage(store_error())),
        other => panic!("{:?}", other),
    }
    assert_eq!(create_user_after_insert(user.clone(), Ok(())).unwrap(), user);
    assert_eq!(
        create_user_after_insert(user, Err(store_error())).unwrap_err(),
        ServiceError::Storage(store_error())
    );
}

#[test]
fn registered_password_logs_in_and_tokens_decode() {
    let user = registered("frank", "s3cret-pass");
    let now = 1_700_000_000;
    let login_dto = LoginRequestDto { username: "frank".into(), password: "s3cret-pass".into() };
    let dto = login_at(Ok(Some(user.clone())), &login_dto, now).unwrap();
    assert_eq!(dto.username, "frank");
    assert_eq!(dto.expire_at, now + ACCESS_TOKEN_LIFETIME);
    assert_eq!(dto.refresh_expire_at, now + REFRESH_TOKEN_LIFETIME);
    assert_eq!(dto.expire_at, 1_700_003_600);
    assert_eq!(dto.refresh_expire_at, 1_701_209_600);
    match decode_jwt_token(&dto.token, &JWTTokenType::Auth) {
        TokenCheck::ParseClaims(text) => assert_eq!(
            text,
            claims_to_json("frank", now + ACCESS_TOKEN_LIFETIME, now, &user.token_seed)
        ),
        other => panic!("{:?}", other),
    }
    match refresh_session(&dto.refresh_token) {
        TokenCheck::ParseClaims(text) => assert_eq!(
            text,
            claims_to_json("frank", now + REFRESH_TOKEN_LIFETIME, now, &user.ref_token_seed)
        ),
        other => panic!("{:?}", other),
    }
}

#[test]
fn wrong_password_unknown_user_and_store_failure() {
    let user = registered("grace", "right-password");
    let wrong = LoginRequestDto { username: "grace".into(), password: "wrong-password".into() };
    assert_eq!(
        login_at(Ok(Some(user)), &wrong, 1000).unwrap_err(),
        ServiceError::Auth(AuthServiceError::BadCredentials)
    );
    assert_eq!(
        login_at(Ok(None), &wrong, 1000).unwrap_err(),
        ServiceError::Auth(AuthServiceError::BadCredentials)
    );
    assert_eq!(login_at(Err(store_error()), &wrong, 1000).unwrap_err(), ServiceError::Storage(store_error()));
}

#[test]
fn unparsable_stored_hash_is_bad_credentials() {
    let user = User::new("1".into(), "h".into(), "h@x".into(), "not a phc string".into(), false);
    let dto = LoginRequestDto { username: "h".into(), password: "whatever1".into() };
    assert_eq!(
        login(Ok(Some(user)), &dto).unwrap_err(),
        ServiceError::Auth(AuthServiceError::BadCredentials)
    );
}

#[test]
fn login_too_late_for_the_clock() {
    let user = registered("ivan", "password-ivan");
    let dto = LoginRequestDto { username: "ivan".into(), password: "password-ivan".into() };
    assert_eq!(
        login_at(Ok(Some(user)), &dto, MAX_TIMESTAMP).unwrap_err(),
        ServiceError::ClockOutOfRange
    );
}

#[test]
fn login_with_clock() {
    let user = registered("judy", "password-judy");
    let dto = LoginRequestDto { username: "judy".into(), password: "password-judy".into() };
    let now = chrono::Utc::now().timestamp();
    let res = login(Ok(Some(user)), &dto).unwrap();
    assert!((res.expire_at - ACCESS_TOKEN_LIFETIME - now).abs() <= 5);
    assert_eq!(res.refresh_expire_at - res.expire_at, REFRESH_TOKEN_LIFETIME - ACCESS_TOKEN_LIFETIME);
}

fn refresh_payload(user: &User, exp: i64) -> JWTPayload {
    JWTPayload::issued_at(user.username.clone(), exp, user.ref_token_seed.clone(), 0)
}

#[test]
fn refresh_issues_new_tokens() {
    let user = User::new("1".into(), "kate".into(), "k@x".into(), "h".into(), false);
    let now = 2_000_000;
    let res = refresh_session_with_user_at(refresh_payload(&user, now), Ok(Some(user.clone())), now).unwrap();
    assert_eq!(res.username, "kate");
    assert_eq!(res.expire_at, now + 3600);
    assert_eq!(res.refresh_expire_at, now + 1209600);
    match decode_jwt_token(&res.token, &JWTTokenType::Auth) {
        TokenCheck::ParseClaims(text) => assert_eq!(text, claims_to_json("kate", now + 3600, now, &user.token_seed)),
        other => panic!("{:?}", other),
    }
}

#[test]
fn refresh_refusals() {
    let user = User::new("1".into(), "leo".into(), "l@x".into(), "h".into(), false);
    let now = 2_000_000;
    assert_eq!(
        refresh_session_with_user_at(refresh_payload(&user, now - 1), Ok(Some(user.clone())), now).unwrap_err(),
        ServiceError::Auth(AuthServiceError::ExpiredToken)
    );
    assert_eq!(
        refresh_session_with_user_at(refresh_payload(&user, now), Ok(None), now).unwrap_err(),
        ServiceError::Auth(AuthServiceError::InvalidToken)
    );
    assert_eq!(
        refresh_session_with_user_at(refresh_payload(&user, now), Err(store_error()), now).unwrap_err(),
        ServiceError::Storage(store_error())
    );
    assert_eq!(
        refresh_session_with_user_at(refresh_payload(&user, MAX_TIMESTAMP), Ok(Some(user.clone())), MAX_TIMESTAMP)
            .unwrap_err(),
        ServiceError::ClockOutOfRange
    );
    assert!(refresh_session_with_user(refresh_payload(&user, i64::MAX), Ok(Some(user.clone()))).is_ok());
}

#[test]
fn refresh_after_token_check() {
    let user = User::new("1".into(), "mia".into(), "m@x".into(), "h".into(), false);
    match refresh_session_decoded(Err(ServiceError::TokenRejected)) {
        RefreshStep::Done(Err(e)) => assert_eq!(e, ServiceError::Auth(AuthServiceError::InvalidToken)),
        other => panic!("{:?}", other),
    }
    for expired in [ServiceError::Auth(AuthServiceError::ExpiredToken), ServiceError::TokenExpired] {
        match refresh_session_decoded(Err(expired)) {
            RefreshStep::Done(Err(e)) => assert_eq!(e, ServiceError::Auth(AuthServiceError::ExpiredToken)),
            other => panic!("{:?}", other),
        }
    }
    match refresh_session_decoded(Err(ServiceError::Auth(AuthServiceError::InvalidToken))) {
        RefreshStep::Done(Err(e)) => assert_eq!(e, ServiceError::Auth(AuthServiceError::InvalidToken)),
        other => panic!("{:?}", other),
    }
    let p = refresh_payload(&user, 10);
    match refresh_session_decoded(Ok(p.clone())) {
        RefreshStep::FetchUser(q) => assert_eq!(q, p),
        other => panic!("{:?}", other),
    }
    assert!(matches!(refresh_session("garbage"), TokenCheck::Done(Err(ServiceError::TokenRejected))));
}

#[test]
fn admin_is_created_only_in_an_empty_store() {
    assert!(matches!(insert_new_admin_user_if_empty(Ok(3)), AdminBootstrapStep::Done(Ok(()))));
    assert!(matches!(insert_new_admin_user_if_empty(Ok(1)), AdminBootstrapStep::Done(Ok(()))));
    match insert_new_admin_user_if_empty(Err(store_error())) {
        AdminBootstrapStep::Done(Err(e)) => assert_eq!(e, ServiceError::Storage(store_error())),
        other => panic!("{:?}", other),
    }
    match insert_new_admin_user_if_empty(Ok(0)) {
        AdminBootstrapStep::Create(CreateUserStep::FindExisting(admin)) => {
            assert_eq!(admin.username, "admin");
            assert_eq!(admin.email, "admin@admin.com");
            assert!(admin.should_reset_password);
            let dto = LoginRequestDto { username: "admin".into(), password: "P@$$w0rd".into() };
            assert!(login_at(Ok(Some(admin)), &dto, 100).is_ok());
        }
        other => panic!("{:?}", other),
    }
}

#[test]
fn admin_request_and_finish() {
    let r = default_admin_request();
    assert_eq!(r.username, "admin");
    assert_eq!(r.email, "admin@admin.com");
    assert_eq!(r.password, "P@$$w0rd");
    assert_eq!(r.confirm_password, "P@$$w0rd");
    let user = User::new("1".into(), "admin".into(), "a@x".into(), "h".into(), true);
    assert_eq!(admin_bootstrap_finished(Ok(user)), Ok(()));
    assert_eq!(
        admin_bootstrap_finished(Err(ServiceError::PasswordHashing)),
        Err(ServiceError::PasswordHashing)
    );
}

#[test]
fn user_default_and_new() {
    let u = User::default();
    assert!(u.id.is_empty() && u.username.is_empty() && u.token_seed.is_empty());
    assert!(!u.should_reset_password);
    let now = chrono::Utc::now().timestamp();
    assert!((u.created_at - now).abs() <= 5);
    let v = User::new("id".into(), "n".into(), "e".into(), "p".into(), true);
    assert_eq!((v.id.as_str(), v.username.as_str(), v.email.as_str(), v.password_hash.as_str()), ("id", "n", "e", "p"));
    assert!(v.should_reset_password);
}

fn parse(text: &str) -> JWTPayload {
    let v: serde_json::Value = serde_json::from_str(text).unwrap();
    JWTPayload::issued_at(
        v["username"].as_str().unwrap().to_string(),
        v["exp"].as_i64().unwrap(),
        v["seed"].as_str().unwrap().to_string(),
        v["iat"].as_i64().unwrap(),
    )
}

fn refresh_at(user: &User, refresh_token: &str, now: i64) -> Result<inventarium::dto::login_response_dto::LoginResponseDto, ServiceError> {
    let checked = match refresh_session(refresh_token) {
        TokenCheck::ParseClaims(text) => match check_token_claims_at(Some(parse(&text)), now) {
            TokenCheck::FetchUser(p) => check_token_user(p, &JWTTokenType::Refresh, Ok(Some(user.clone()))),
            TokenCheck::Done(r) => r,
            TokenCheck::ParseClaims(_) => panic!("parsed twice"),
        },
        TokenCheck::Done(r) => r,
        TokenCheck::FetchUser(_) => panic!("no claims"),
    };
    match refresh_session_decoded(checked) {
        RefreshStep::FetchUser(p) => refresh_session_with_user_at(p, Ok(Some(user.clone())), now),
        RefreshStep::Done(r) => r,
    }
}

#[test]
fn refresh_after_login_and_after_expiry() {
    let user = registered("olga", "password-olga");
    let issued = 1_700_000_000;
    let dto = LoginRequestDto { username: "olga".into(), password: "password-olga".into() };
    let tokens = login_at(Ok(Some(user.clone())), &dto, issued).unwrap();
    let later = issued + 100;
    let fresh = refresh_at(&user, &tokens.refresh_token, later).unwrap();
    assert_eq!(fresh.username, "olga");
    assert_eq!(fresh.refresh_expire_at, later + REFRESH_TOKEN_LIFETIME);
    // Expired within the leeway, and long expired: both are expired tokens.
    let within = tokens.refresh_expire_at + 30;
    assert_eq!(refresh_at(&user, &tokens.refresh_token, within).unwrap_err(), ServiceError::Auth(AuthServiceError::ExpiredToken));
    let long_after = tokens.refresh_expire_at + 1000;
    assert_eq!(refresh_at(&user, &tokens.refresh_token, long_after).unwrap_err(), ServiceError::Auth(AuthServiceError::ExpiredToken));
    // An access token is not a refresh token.
    assert_eq!(refresh_at(&user, &tokens.token, later).unwrap_err(), ServiceError::Auth(AuthServiceError::InvalidToken));
}
