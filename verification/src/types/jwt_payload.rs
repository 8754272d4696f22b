//! The claims carried by a token, the pair of tokens handed out at login, and
//! the two kinds of token.
use vstd::prelude::*;

use crate::service::clock::{now_timestamp, MAX_TIMESTAMP};

verus! {

/// The claims of a token: who it is for, when it expires and was issued (Unix
/// seconds), and the user's seed that it is bound to.
#[derive(Debug, Clone, PartialEq, Eq)]
pub struct JWTPayload {
    pub username: String,
    pub exp: i64,
    pub iat: i64,
    pub seed: String,
}

impl JWTPayload {
    /// Claims for `username`, expiring at `exp`, bound to `seed`, issued now.
    pub fn new(username: String, exp: i64, seed: String) -> (payload: Self)
        ensures
            payload.username == username,
            payload.exp == exp,
            payload.seed == seed,
            0 <= payload.iat <= MAX_TIMESTAMP,
    {
        let iat = now_timestamp();
        JWTPayload::issued_at(username, exp, seed, iat)
    }

    /// Claims for `username`, expiring at `exp`, bound to `seed`, issued at `iat`.
    pub fn issued_at(username: String, exp: i64, seed: String, iat: i64) -> (payload: Self)
        ensures
            payload.username == username,
            payload.exp == exp,
            payload.seed == seed,
            payload.iat == iat,
    {
        JWTPayload { username, exp, iat, seed }
    }
}

/// The access token and the refresh token handed out together.
#[derive(Debug)]
pub struct JWTTokenPair {
    pub auth: String,
    pub refresh: String,
}

/// Which of the two tokens is meant: each is signed with its own secret and
/// bound to its own seed of the user.
#[derive(Debug, Clone, Copy, PartialEq, Eq)]
pub enum JWTTokenType {
    Auth,
    Refresh,
}

} // verus!
