//! The sample flows, end to end through the computing core: what a worker
//! writes for a `set`, and what a `get` decides from what is then on disk.

use diskcache::store::{compute_expiry, encode_entry, get_outcome, locate};

#[test]
fn set_alpha_then_immediate_get_returns_hello() {
    let now = 1_700_000_000;
    // set("alpha", b"hello", Some(60s)): address the key, write header+payload.
    let (dir, file_name, shard) = locate("alpha");
    let written = encode_entry(compute_expiry(now, Some(60)), b"hello");
    assert!(shard < 4096);
    assert_eq!(dir.len() + file_name.len(), 32);
    // get("alpha") immediately afterwards reads the same file back.
    let (result, delete) = get_outcome(&Some(written), now);
    assert_eq!(result.unwrap(), b"hello".to_vec());
    assert!(!delete);
}

#[test]
fn set_beta_then_clear_then_get_is_not_found() {
    let now = 1_700_000_000;
    // set("beta", b"x", None) writes a never-expiring entry...
    let written = encode_entry(compute_expiry(now, None), b"x");
    let (result, _) = get_outcome(&Some(written), now);
    assert_eq!(result.unwrap(), b"x".to_vec());
    // ...clear() empties every shard, so the entry file is gone...
    // ...and get("beta") then finds nothing.
    let (result, delete) = get_outcome(&None, now);
    assert_eq!(result.unwrap_err(), diskcache::error::Error::NotFound);
    assert!(!delete);
}

#[test]
fn truncated_entry_get_twice() {
    let now = 1_700_000_000;
    // A file truncated below the 10-byte header is invalid and deleted...
    let (result, delete) = get_outcome(&Some(b"\0\0\0".to_vec()), now);
    assert_eq!(result.unwrap_err(), diskcache::error::Error::InvalidData);
    assert!(delete);
    // ...so the next get of the same key finds no file.
    let (result, delete) = get_outcome(&None, now);
    assert_eq!(result.unwrap_err(), diskcache::error::Error::NotFound);
    assert!(!delete);
}

#[test]
fn expired_entry_get_twice() {
    let set_now = 1_700_000_000;
    let written = encode_entry(compute_expiry(set_now, Some(60)), b"v");
    // 61 seconds later the entry is past its expiry: evicted on touch.
    let (result, delete) = get_outcome(&Some(written), set_now + 61);
    assert_eq!(result.unwrap_err(), diskcache::error::Error::NotFound);
    assert!(delete);
    let (result, _) = get_outcome(&None, set_now + 61);
    assert_eq!(result.unwrap_err(), diskcache::error::Error::NotFound);
}
