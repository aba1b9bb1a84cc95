//! Process configuration as plain values. Loading from a configuration
//! file happens outside the library; these types only carry the result.

use vstd::prelude::*;

verus! {

/// Gateway settings: where to listen, where payment callbacks are sent,
/// and which mints are accepted.
#[derive(Clone, Debug)]
pub struct PosConfig {
    pub listen_host: String,
    pub listen_port: u16,
    pub payment_url: String,
    pub accepted_mints: Vec<String>,
}

/// Top-level application configuration.
#[derive(Clone, Debug)]
pub struct AppConfig {
    pub pos: PosConfig,
}

} // verus!
