//! What every request handler shares: the user store and the configuration.
use vstd::prelude::*;

use crate::types::env_variables::EnvVariables;

verus! {

/// The shared state of the service; `Db` is the handle of the user store.
#[derive(Clone)]
pub struct AppState<Db> {
    pub db: Db,
    pub config: EnvVariables,
}

impl<Db> AppState<Db> {
    /// The state holding `db_pool` and `config`.
    pub fn new(db_pool: Db, config: EnvVariables) -> (state: Self)
        ensures
            state.db == db_pool,
            state.config == config,
    {
        AppState { db: db_pool, config }
    }
}

} // verus!
