//! Fixed parameters of the client protocol.

use vstd::prelude::*;

verus! {

/// Fixed TCP port on the loopback interface where the daemon listens.
pub const DAEMON_PORT: u16 = 5002;

/// Number of reconnect attempts allowed after the daemon has been launched.
pub const MAX_RETRIES: usize = 5;

/// Seconds to wait for a freshly launched daemon to exit prematurely.
pub const LIVENESS_WAIT_SECS: u64 = 1;

/// Seconds to sleep after a healthy liveness check, so the daemon can bind.
pub const SETTLE_SECS: u64 = 1;

/// Size of the buffer used to move bytes between the input, the socket and
/// the console.
pub const CHUNK_SIZE: usize = 1024;

/// The protocol's tunable parameters, gathered so they can be overridden.
#[derive(Clone, Copy, Debug, PartialEq, Eq)]
pub struct Config {
    pub port: u16,
    pub retries: usize,
    pub liveness_wait_secs: u64,
    pub settle_secs: u64,
    pub chunk_size: usize,
}

impl Config {
    /// The fixed policy: port 5002, five retries, one-second waits,
    /// 1024-byte chunks.
    pub fn standard() -> (c: Config)
        ensures
            c.port == DAEMON_PORT,
            c.retries == MAX_RETRIES,
            c.liveness_wait_secs == LIVENESS_WAIT_SECS,
            c.settle_secs == SETTLE_SECS,
            c.chunk_size == CHUNK_SIZE,
    {
        Config {
            port: DAEMON_PORT,
            retries: MAX_RETRIES,
            liveness_wait_secs: LIVENESS_WAIT_SECS,
            settle_secs: SETTLE_SECS,
            chunk_size: CHUNK_SIZE,
        }
    }
}

} // verus!
