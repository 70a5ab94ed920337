use vstd::prelude::*;

verus! {

/// The port the server listens on when none is configured.
pub const DEFAULT_PORT: u16 = 3000;

/// The settings of the server.
#[derive(Debug, Clone, PartialEq, Eq)]
pub struct Config {
    /// The port where the HTTP server will be running
    pub port: u16,
    /// URL for connecting to the database
    pub database_url: String,
    /// The secret that signs access tokens
    pub jwt_secret: String,
    /// URL for connecting to the cache
    pub redis_url: String,
}

} // verus!
