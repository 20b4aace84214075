//! The janitor's computing core: which directories are shard directories,
//! and which entry files a sweep deletes.
//!
//! The sweep itself — walking the cache root on a timer, taking each shard's
//! write lock without blocking and skipping shards that are busy — is driven
//! by the embedding program; the per-name and per-file decisions are here.

use vstd::prelude::*;
use vstd::slice::{slice_index_get, slice_subrange};

use crate::store::{entry_expiry, is_expired, lookup, opt_view, Lookup};
use crate::utils::{hex3_val, hex_char_value, is_hex_char, u64_from_be_bytes};

verus! {

/// Whether a sweep deletes the entry whose header read gave `header`
/// (`None` when the fixed 10-byte header could not be read in full, which
/// marks the file corrupt): corrupt entries and entries whose expiry
/// timestamp (0 meaning "never") lies strictly before `now`.
pub open spec fn sweep_expired(header: Option<Seq<u8>>, now: u64) -> bool {
    match header {
        None => true,
        Some(h) => h.len() < 10 || is_expired(entry_expiry(h), now),
    }
}

/// Decides whether a sweep deletes an entry, from the attempted read of its
/// fixed header at time `now`.
pub fn sweep_decision(header: &Option<Vec<u8>>, now: u64) -> (del: bool)
    ensures
        del == sweep_expired(opt_view(*header), now),
{
    match header {
        None => true,
        Some(h) => {
            if h.len() < 10 {
                true
            } else {
                let bytes = slice_subrange(h.as_slice(), 2, 10);
                let expires_at = u64_from_be_bytes(bytes);
                expires_at != 0 && expires_at < now
            }
        },
    }
}

/// Parses a directory name as a shard prefix: exactly 3 hexadecimal
/// characters. Any other name is not a shard directory and the sweep passes
/// it by.
pub fn parse_shard_dir(name: &[u8]) -> (r: Option<u16>)
    ensures
        (name@.len() == 3 && is_hex_char(name@[0]) && is_hex_char(name@[1]) && is_hex_char(
            name@[2],
        )) ==> r == Some(hex3_val(name@)),
        !(name@.len() == 3 && is_hex_char(name@[0]) && is_hex_char(name@[1]) && is_hex_char(
            name@[2],
        )) ==> r is None,
        r matches Some(v) ==> v < crate::SHARD_COUNT,
{
    if name.len() != 3 {
        return None;
    }
    let d0 = hex_char_value(*slice_index_get(name, 0));
    let d1 = hex_char_value(*slice_index_get(name, 1));
    let d2 = hex_char_value(*slice_index_get(name, 2));
    match (d0, d1, d2) {
        (Some(v0), Some(v1), Some(v2)) => Some(v0 as u16 * 256 + v1 as u16 * 16 + v2 as u16),
        _ => None,
    }
}

/// The janitor and Get agree on eviction: a sweep deletes an entry file
/// exactly when a Get of it would find it corrupt or expired.
pub proof fn law_sweep_matches_lookup(file: Seq<u8>, now: u64)
    ensures
        sweep_expired(Some(file), now) == (lookup(Some(file), now) is Corrupt || lookup(
            Some(file),
            now,
        ) is Expired),
{
}

} // verus!
