//! The configuration record of the service.

use vstd::prelude::*;

verus! {

/// Options the service is started with.
pub struct Config {
    /// Directory of the durable store.
    pub db_path: String,
    /// A validator might try to get a decryption that is not yet put by an
    /// oracle. This is the longest time, in milliseconds, that oracles are
    /// expected to be late with the put. It bounds both the wait of a get and
    /// the time a record stays in the wait cache.
    pub max_expected_oracle_delay_ms: u64,
}

impl Config {
    /// Size of a hex-encoded key. For the size in bytes, divide by 2.
    pub const HEX_KEY_SIZE: usize = 64;
}

/// Number of bytes in a key.
pub const KEY_BYTES: usize = 32;

} // verus!
