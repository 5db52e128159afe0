//! The immutable configuration fixed at startup: bind address, capacity,
//! and keepalive cadence.

use vstd::prelude::*;

verus! {

/// Default cap on concurrently admitted sessions.
pub const MAX_CONNECTIONS: usize = 10;

/// Default keepalive interval, in seconds.
pub const PING_INTERVAL_SECS: u64 = 30;

/// The default bind address, used when the surrounding program supplies
/// no override.
pub open spec fn default_addr() -> Seq<char> {
    "0.0.0.0:8080"@
}

/// Startup configuration, read-only for the lifetime of the process.
pub struct ServerConfig {
    pub addr: String,
    pub max_connections: usize,
    pub ping_interval_secs: u64,
}

impl Default for ServerConfig {
    /// The built-in defaults; an address override comes from the caller.
    fn default() -> (c: Self)
        ensures
            c.addr@ == default_addr(),
            c.max_connections == MAX_CONNECTIONS,
            c.ping_interval_secs == PING_INTERVAL_SECS,
    {
        ServerConfig {
            addr: String::from_str("0.0.0.0:8080"),
            max_connections: MAX_CONNECTIONS,
            ping_interval_secs: PING_INTERVAL_SECS,
        }
    }
}

} // verus!
