//! Embedded, disk-resident key-value cache with time-to-live expiry.
//!
//! Keys are addressed by a 128-bit hash rendered as 32 lowercase hex
//! characters: the first 3 select a shard (directory and lock), the
//! remaining 29 name the entry file. Each entry file carries a 10-byte
//! header (2 reserved zero bytes, 8-byte big-endian expiry in Unix
//! seconds, 0 meaning "never expires") followed by the raw value.

pub mod error;
pub mod janitor;
pub mod keeper;
pub mod shards;
pub mod store;
pub mod utils;

use vstd::prelude::*;

verus! {

/// Number of shards: one per possible 3-hex-digit prefix of a hash.
pub const SHARD_COUNT: u16 = 4096;

} // verus!
