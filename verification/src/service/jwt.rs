//! Signing and checking tokens with jsonwebtoken (HS256 over a shared secret).
use vstd::prelude::*;

use crate::service::claims_json::claims_json;
use crate::types::jwt_payload::JWTTokenType;

verus! {

/// The characters of an optional string.
pub open spec fn chars_of(s: Option<String>) -> Option<Seq<char>> {
    match s {
        Some(t) => Some(t@),
        None => None,
    }
}

/// What `jsonwebtoken::encode` gives for the default header (HS256, typ JWT),
/// claims whose JSON text is `claims`, and the HMAC secret `secret`: the token,
/// or `None` where it fails.
pub uninterp spec fn hs256_jwt_encoding(secret: Seq<u8>, claims: Seq<char>) -> Option<Seq<char>>;

/// What `jsonwebtoken::decode` gives for `token` and the HMAC secret `secret`
/// when the expiry is not compared with the clock: the JSON text of the
/// claims, or `None` where the token is refused.
pub uninterp spec fn hs256_jwt_claims(secret: Seq<u8>, token: Seq<char>) -> Option<Seq<char>>;

/// The secret that signs access tokens: the bytes of "hello".
pub open spec fn auth_secret() -> Seq<u8> {
    seq![104u8, 101u8, 108u8, 108u8, 111u8]
}

/// The secret that signs refresh tokens: the bytes of "secret".
pub open spec fn refresh_secret() -> Seq<u8> {
    seq![115u8, 101u8, 99u8, 114u8, 101u8, 116u8]
}

/// The secret for a kind of token.
pub open spec fn secret_of(token_type: JWTTokenType) -> Seq<u8> {
    match token_type {
        JWTTokenType::Auth => auth_secret(),
        JWTTokenType::Refresh => refresh_secret(),
    }
}

/// The secret for a kind of token, as bytes.
pub fn token_secret(token_type: &JWTTokenType) -> (secret: Vec<u8>)
    ensures
        secret@ == secret_of(*token_type),
{
    match token_type {
        JWTTokenType::Auth => vec![104u8, 101u8, 108u8, 108u8, 111u8],
        JWTTokenType::Refresh => vec![115u8, 101u8, 99u8, 114u8, 101u8, 116u8],
    }
}

/// Calls `jsonwebtoken::encode` with `Header::default()` (HS256),
/// `EncodingKey::from_secret(secret)` and the claims JSON text `claims`, handed
/// over as a `serde_json::value::RawValue` so that it is written as it is.
///
/// Claimed: the result is `hs256_jwt_encoding(secret, claims)`; and it is a
/// token whenever `claims` is a claims object written by `claims_json`, which is
/// valid JSON that `RawValue::from_string` accepts, while `encode` with an HMAC
/// key and HS256 has no other failure.
#[verifier::external_body]
pub(crate) fn encode_hs256(secret: &[u8], claims: &str) -> (token: Option<String>)
    ensures
        chars_of(token) == hs256_jwt_encoding(secret@, claims@),
        forall|u: Seq<char>, e: i64, i: i64, s: Seq<char>|
            #![trigger claims_json(u, e as int, i as int, s)]
            claims@ == claims_json(u, e as int, i as int, s) ==> token is Some,
{
    let raw = match serde_json::value::RawValue::from_string(claims.to_string()) {
        Ok(raw) => raw,
        Err(_) => return None,
    };
    let key = jsonwebtoken::EncodingKey::from_secret(secret);
    match jsonwebtoken::encode(&jsonwebtoken::Header::default(), &raw, &key) {
        Ok(token) => Some(token),
        Err(_) => None,
    }
}

/// Calls `jsonwebtoken::decode` for a `serde_json::value::RawValue` with
/// `DecodingKey::from_secret(secret)` and `Validation::default()` whose
/// `validate_exp` is turned off; the expiry is checked against the clock by
/// the caller. Returns the JSON text of the claims.
///
/// Claimed: the result is `hs256_jwt_claims(secret, token)`; and a token that
/// `encode_hs256` made with this secret from a claims object written by
/// `claims_json` with a non-negative `exp` gives that claims text back: the
/// signature is recomputed and equal, HS256 is the one allowed algorithm, the
/// required `exp` claim parses as a `u64`, no `aud` claim is present, and the
/// raw value is the decoded bytes, which hold no whitespace.
#[verifier::external_body]
pub(crate) fn decode_hs256(secret: &[u8], token: &str) -> (claims: Option<String>)
    ensures
        chars_of(claims) == hs256_jwt_claims(secret@, token@),
        forall|u: Seq<char>, e: i64, i: i64, s: Seq<char>|
            #![trigger hs256_jwt_encoding(secret@, claims_json(u, e as int, i as int, s))]
            0 <= e && hs256_jwt_encoding(secret@, claims_json(u, e as int, i as int, s)) == Some(
                token@,
            ) ==> chars_of(claims) == Some(claims_json(u, e as int, i as int, s)),
{
    let mut validation = jsonwebtoken::Validation::default();
    validation.validate_exp = false;
    let key = jsonwebtoken::DecodingKey::from_secret(secret);
    match jsonwebtoken::decode::<Box<serde_json::value::RawValue>>(token, &key, &validation) {
        Ok(data) => Some(data.claims.get().to_string()),
        Err(_) => None,
    }
}

} // verus!
