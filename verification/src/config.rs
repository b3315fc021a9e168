//! The process configuration. The core never reads the environment itself:
//! the embedding program loads these values once at startup and passes the
//! structure in.

use vstd::prelude::*;

verus! {

/// Configuration loaded once at process start.
#[derive(Debug)]
pub struct Config {
    pub database_url: String,
    pub database_charset: String,
    pub database_max_connections: u32,
    pub database_min_connections: u32,
    /// The token-signing secret, base64-encoded.
    pub jwt_private_key: String,
    /// The host prefix that shortened URLs are rendered under.
    pub service_host: String,
    pub service_port: String,
}

} // verus!
