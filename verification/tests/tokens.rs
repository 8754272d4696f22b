use inventarium::service::auth_service::error::{AuthServiceError, ServiceError};
use inventarium::service::auth_service::{
    check_token_claims, check_token_claims_at, check_token_user, decode_jwt_token,
    encode_jwt_payload, generate_jwt_token, generate_jwt_token_at, TokenCheck, EXPIRY_LEEWAY,
};
use inventarium::service::claims_json::claims_to_json;
use inventarium::entity::user::User;
use inventarium::repo::user_repo::StoreError;
use inventarium::types::jwt_payload::{JWTPayload, JWTTokenType};

fn payload(username: &str, exp: i64, iat: i64, seed: &str) -> JWTPayload {
    JWTPayload::issued_at(username.to_string(), exp, seed.to_string(), iat)
}

fn user_with_seeds(username: &str, token_seed: &str, ref_token_seed: &str) -> User {
    User {
        id: "id-1".to_string(),
        username: username.to_string(),
        email: format!("{}@example.com", username),
        password_hash: String::new(),
        token_seed: token_seed.to_string(),
        ref_token_seed: ref_token_seed.to_string(),
        created_at: 0,
        updated_at: 0,
        should_reset_password: false,
    }
}

#[test]
fn claims_json_is_compact_and_ordered() {
    assert_eq!(
        claims_to_json("admin", 1700003600, 1700000000, "seed-1"),
        r#"{"username":"admin","exp":1700003600,"iat":1700000000,"seed":"seed-1"}"#
    );
}

#[test]
fn claims_json_escapes_like_serde_json() {
    let name = "a\"b\\c\n\t\r\u{8}\u{c}\u{1}\u{1f}é/\u{7f}";
    let json = claims_to_json(name, -5, i64::MIN, "");
    let expected = format!(
        "{{\"username\":{},\"exp\":-5,\"iat\":-9223372036854775808,\"seed\":\"\"}}",
        serde_json::to_string(name).unwrap()
    );
    assert_eq!(json, expected);
    assert!(json.contains("\\u0001") && json.contains("\\u001f"));
}

#[test]
fn claims_json_numbers_at_the_limits() {
    let json = claims_to_json("", i64::MAX, 0, "x");
    assert_eq!(json, r#"{"username":"","exp":9223372036854775807,"iat":0,"seed":"x"}"#);
    let value: serde_json::Value = serde_json::from_str(&json).unwrap();
    assert_eq!(value["exp"].as_i64(), Some(i64::MAX));
}

#[test]
fn issued_token_decodes_to_its_claims() {
    let p = payload("alice", 2000000000, 1999996400, "seed-a");
    let token = encode_jwt_payload(&p, &JWTTokenType::Auth);
    assert_eq!(token.split('.').count(), 3);
    assert!(!token.contains("alice"));
    match decode_jwt_token(&token, &JWTTokenType::Auth) {
        TokenCheck::ParseClaims(text) => {
            assert_eq!(text, claims_to_json("alice", 2000000000, 1999996400, "seed-a"))
        }
        _ => panic!("token was not accepted"),
    }
}

#[test]
fn token_of_one_kind_is_refused_as_the_other() {
    let p = payload("alice", 2000000000, 1999996400, "seed-a");
    let access = encode_jwt_payload(&p, &JWTTokenType::Auth);
    let refresh = encode_jwt_payload(&p, &JWTTokenType::Refresh);
    assert_ne!(access, refresh);
    assert!(matches!(
        decode_jwt_token(&access, &JWTTokenType::Refresh),
        TokenCheck::Done(Err(ServiceError::TokenRejected))
    ));
    assert!(matches!(
        decode_jwt_token(&refresh, &JWTTokenType::Auth),
        TokenCheck::Done(Err(ServiceError::TokenRejected))
    ));
    assert!(matches!(
        decode_jwt_token(&refresh, &JWTTokenType::Refresh),
        TokenCheck::ParseClaims(_)
    ));
}

#[test]
fn tampered_or_malformed_token_is_refused() {
    let p = payload("alice", 2000000000, 1999996400, "seed-a");
    let token = encode_jwt_payload(&p, &JWTTokenType::Auth);
    let other = encode_jwt_payload(&payload("mallory", 2000000000, 1999996400, "seed-a"), &JWTTokenType::Auth);
    let parts: Vec<&str> = token.split('.').collect();
    let other_parts: Vec<&str> = other.split('.').collect();
    let forged = format!("{}.{}.{}", parts[0], other_parts[1], parts[2]);
    for bad in [forged.as_str(), "not-a-token", "", "a.b.c"] {
        assert!(matches!(
            decode_jwt_token(bad, &JWTTokenType::Auth),
            TokenCheck::Done(Err(ServiceError::TokenRejected))
        ));
    }
}

#[test]
fn negative_expiry_is_refused_by_the_decoder() {
    let p = payload("alice", -1, 0, "seed-a");
    let token = encode_jwt_payload(&p, &JWTTokenType::Auth);
    assert!(matches!(
        decode_jwt_token(&token, &JWTTokenType::Auth),
        TokenCheck::Done(Err(ServiceError::TokenRejected))
    ));
}

#[test]
fn generated_pair_decodes_with_each_secret() {
    let pair = generate_jwt_token_at(
        "bob".to_string(),
        5000,
        9000,
        "s1".to_string(),
        "s2".to_string(),
        1000,
    )
    .unwrap();
    match decode_jwt_token(&pair.auth, &JWTTokenType::Auth) {
        TokenCheck::ParseClaims(text) => assert_eq!(text, claims_to_json("bob", 5000, 1000, "s1")),
        _ => panic!("access token refused"),
    }
    match decode_jwt_token(&pair.refresh, &JWTTokenType::Refresh) {
        TokenCheck::ParseClaims(text) => assert_eq!(text, claims_to_json("bob", 9000, 1000, "s2")),
        _ => panic!("refresh token refused"),
    }
}

#[test]
fn generated_pair_with_clock_issue_time() {
    let pair = generate_jwt_token("bob".to_string(), 5000, 9000, "s1".to_string(), "s2".to_string()).unwrap();
    let now = chrono::Utc::now().timestamp();
    match decode_jwt_token(&pair.auth, &JWTTokenType::Auth) {
        TokenCheck::ParseClaims(text) => {
            let v: serde_json::Value = serde_json::from_str(&text).unwrap();
            assert_eq!(v["username"], "bob");
            assert_eq!(v["exp"], 5000);
            assert_eq!(v["seed"], "s1");
            assert!((v["iat"].as_i64().unwrap() - now).abs() <= 5);
        }
        _ => panic!("access token refused"),
    }
}

#[test]
fn claims_are_judged_against_the_clock() {
    let now = 1_000_000;
    assert!(matches!(check_token_claims_at(None, now), TokenCheck::Done(Err(ServiceError::TokenRejected))));
    let long_expired = payload("a", now - EXPIRY_LEEWAY - 1, 0, "s");
    assert!(matches!(
        check_token_claims_at(Some(long_expired), now),
        TokenCheck::Done(Err(ServiceError::TokenExpired))
    ));
    let just_expired = payload("a", now - EXPIRY_LEEWAY, 0, "s");
    assert!(matches!(
        check_token_claims_at(Some(just_expired), now),
        TokenCheck::Done(Err(ServiceError::Auth(AuthServiceError::ExpiredToken)))
    ));
    let last_second = payload("a", now - 1, 0, "s");
    assert!(matches!(
        check_token_claims_at(Some(last_second), now),
        TokenCheck::Done(Err(ServiceError::Auth(AuthServiceError::ExpiredToken)))
    ));
    let valid = payload("a", now, 0, "s");
    match check_token_claims_at(Some(valid), now) {
        TokenCheck::FetchUser(p) => assert_eq!(p.username, "a"),
        _ => panic!("valid claims refused"),
    }
}

#[test]
fn claims_check_with_clock() {
    let far = payload("a", i64::MAX, 0, "s");
    assert!(matches!(check_token_claims(Some(far)), TokenCheck::FetchUser(_)));
    let old = payload("a", 0, 0, "s");
    assert!(matches!(check_token_claims(Some(old)), TokenCheck::Done(Err(ServiceError::TokenExpired))));
}

#[test]
fn token_user_must_hold_the_seed() {
    let user = user_with_seeds("a", "auth-seed", "ref-seed");
    let p = payload("a", 10, 0, "auth-seed");
    assert_eq!(check_token_user(p, &JWTTokenType::Auth, Ok(Some(user))).unwrap().seed, "auth-seed");

    let user = user_with_seeds("a", "auth-seed", "ref-seed");
    let p = payload("a", 10, 0, "auth-seed");
    assert_eq!(
        check_token_user(p, &JWTTokenType::Refresh, Ok(Some(user))).unwrap_err(),
        ServiceError::Auth(AuthServiceError::InvalidToken)
    );

    let user = user_with_seeds("a", "auth-seed", "ref-seed");
    let p = payload("a", 10, 0, "ref-seed");
    assert!(check_token_user(p, &JWTTokenType::Refresh, Ok(Some(user))).is_ok());

    let p = payload("a", 10, 0, "auth-seed");
    assert_eq!(
        check_token_user(p, &JWTTokenType::Auth, Ok(None)).unwrap_err(),
        ServiceError::Auth(AuthServiceError::InvalidToken)
    );
    let p = payload("a", 10, 0, "auth-seed");
    assert_eq!(
        check_token_user(p, &JWTTokenType::Auth, Err(StoreError { message: "down".to_string() })).unwrap_err(),
        ServiceError::Auth(AuthServiceError::InvalidToken)
    );
}

#[test]
fn payload_new_reads_the_clock() {
    let before = chrono::Utc::now().timestamp();
    let p = JWTPayload::new("u".to_string(), 42, "s".to_string());
    let after = chrono::Utc::now().timestamp();
    assert_eq!((p.username.as_str(), p.exp, p.seed.as_str()), ("u", 42, "s"));
    assert!(before <= p.iat && p.iat <= after);
}
