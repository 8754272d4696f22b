//! A stored user account.
use vstd::prelude::*;

use crate::service::clock::{now_timestamp, MAX_TIMESTAMP};
use crate::service::seed::{is_uuid_v4_text, random_uuid};

verus! {

/// A user account as the store keeps it. `token_seed` and `ref_token_seed`
/// are bound into the user's access and refresh tokens; times are Unix seconds.
#[derive(Debug, Clone, PartialEq, Eq)]
pub struct User {
    pub id: String,
    pub username: String,
    pub email: String,
    pub password_hash: String,
    pub token_seed: String,
    pub ref_token_seed: String,
    pub created_at: i64,
    pub updated_at: i64,
    pub should_reset_password: bool,
}

impl Default for User {
    /// An empty account created now: created and updated at one clock reading.
    fn default() -> (user: Self)
        ensures
            user.id@ == Seq::<char>::empty(),
            user.username@ == Seq::<char>::empty(),
            user.email@ == Seq::<char>::empty(),
            user.password_hash@ == Seq::<char>::empty(),
            user.token_seed@ == Seq::<char>::empty(),
            user.ref_token_seed@ == Seq::<char>::empty(),
            0 <= user.created_at <= MAX_TIMESTAMP,
            user.updated_at == user.created_at,
            !user.should_reset_password,
    {
        let created_at = now_timestamp();
        let updated_at = created_at;
        User {
            id: String::new(),
            username: String::new(),
            email: String::new(),
            password_hash: String::new(),
            token_seed: String::new(),
            ref_token_seed: String::new(),
            created_at,
            updated_at,
            should_reset_password: false,
        }
    }
}

impl User {
    /// A new account with fresh random token seeds (UUID texts), created now:
    /// created and updated at one clock reading.
    pub fn new(
        id: String,
        username: String,
        email: String,
        password_hash: String,
        should_reset_password: bool,
    ) -> (user: Self)
        ensures
            user.id == id,
            is_uuid_v4_text(user.token_seed@),
            is_uuid_v4_text(user.ref_token_seed@),
            user.username == username,
            user.email == email,
            user.password_hash == password_hash,
            user.should_reset_password == should_reset_password,
            0 <= user.created_at <= MAX_TIMESTAMP,
            user.updated_at == user.created_at,
    {
        let token_seed = random_uuid();
        let ref_token_seed = random_uuid();
        let created_at = now_timestamp();
        let updated_at = created_at;
        User {
            id,
            username,
            email,
            password_hash,
            token_seed,
            ref_token_seed,
            created_at,
            updated_at,
            should_reset_password,
        }
    }
}

} // verus!
