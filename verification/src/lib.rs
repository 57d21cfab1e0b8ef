//! A key/value service for signed decryption results: oracles publish a record
//! under a fixed-width key, validators read it, and a reader that arrives early
//! waits on an in-memory rendezvous cache until the record is published.

use vstd::prelude::*;

pub mod app_state;
pub mod config;
pub mod db;
pub mod routes;
pub mod wait_cache;

use crate::app_state::AppState;
use crate::config::Config;
use crate::wait_cache::WaitCache;
use crate::wait_cache::MAX_TIME_TO_LIVE_MS;

verus! {

/// A service under construction: without state until it is configured.
pub struct Rocket<D> {
    pub state: Option<AppState<D>>,
}

/// A service that is not configured yet.
pub fn build_rocket<D>() -> (rocket: Rocket<D>)
    ensures
        rocket.state is None,
{
    Rocket { state: None }
}

/// Gives the service its state: the configuration, the store, and a wait cache
/// whose time to live is the configured delay.
pub fn configure_rocket<D>(rocket: Rocket<D>, config: Config, db: D) -> (configured:
    Rocket<D>)
    requires
        config.max_expected_oracle_delay_ms <= MAX_TIME_TO_LIVE_MS,
    ensures
        configured.state matches Some(state) && state.config == config && state.db == db
            && state.cache.spec_time_to_live_ms() == config.max_expected_oracle_delay_ms,
{
    let cache = WaitCache::new(config.max_expected_oracle_delay_ms);
    Rocket { state: Some(AppState { config, db, cache }) }
}

/// Builds a service with its configuration and store.
pub fn build_and_configure_rocket<D>(config: Config, db: D) -> (configured: Rocket<D>)
    requires
        config.max_expected_oracle_delay_ms <= MAX_TIME_TO_LIVE_MS,
    ensures
        configured.state matches Some(state) && state.config == config && state.db == db
            && state.cache.spec_time_to_live_ms() == config.max_expected_oracle_delay_ms,
{
    let rocket = build_rocket();
    configure_rocket(rocket, config, db)
}

} // verus!
