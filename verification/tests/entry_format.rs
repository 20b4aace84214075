use diskcache::error::Error;
use diskcache::janitor::sweep_decision;
use diskcache::store::{compute_expiry, encode_entry, get_outcome};
use diskcache::utils::{now, u64_from_be_bytes, u64_to_be_bytes, u128_to_be_bytes};

#[test]
fn u64_big_endian_round_trip() {
    for &x in &[0u64, 1, 255, 256, 0xdead_beef, u64::MAX] {
        let bytes = u64_to_be_bytes(x);
        assert_eq!(bytes.len(), 8);
        assert_eq!(u64_from_be_bytes(&bytes), x);
    }
    assert_eq!(u64_to_be_bytes(0x0102030405060708), vec![1, 2, 3, 4, 5, 6, 7, 8]);
}

#[test]
fn u128_big_endian_layout() {
    assert_eq!(u128_to_be_bytes(0), vec![0u8; 16]);
    let mut expected = vec![0u8; 15];
    expected.push(9);
    assert_eq!(u128_to_be_bytes(9), expected);
    assert_eq!(u128_to_be_bytes(1 << 120)[0], 1);
}

#[test]
fn encode_entry_exact_bytes() {
    let e = encode_entry(0, b"hello");
    assert_eq!(e, vec![0, 0, 0, 0, 0, 0, 0, 0, 0, 0, b'h', b'e', b'l', b'l', b'o']);
    let e = encode_entry(256, b"");
    assert_eq!(e, vec![0, 0, 0, 0, 0, 0, 0, 0, 1, 0]);
}

#[test]
fn compute_expiry_formula() {
    assert_eq!(compute_expiry(100, Some(60)), 160);
    assert_eq!(compute_expiry(0, Some(0)), 0);
    assert_eq!(compute_expiry(987_654_321, None), 0);
}

#[test]
fn get_round_trips_a_fresh_entry() {
    let now = 1_000_000;
    let file = encode_entry(compute_expiry(now, Some(60)), b"payload");
    let (result, delete) = get_outcome(&Some(file), now);
    assert_eq!(result.unwrap(), b"payload".to_vec());
    assert!(!delete);
}

#[test]
fn entry_without_ttl_never_expires() {
    let file = encode_entry(0, b"forever");
    let (result, delete) = get_outcome(&Some(file.clone()), u64::MAX);
    assert_eq!(result.unwrap(), b"forever".to_vec());
    assert!(!delete);
    let (result, _) = get_outcome(&Some(file), 0);
    assert_eq!(result.unwrap(), b"forever".to_vec());
}

#[test]
fn expired_entry_is_not_found_and_deleted() {
    let file = encode_entry(compute_expiry(100, Some(60)), b"stale");
    let (result, delete) = get_outcome(&Some(file), 161);
    assert_eq!(result.unwrap_err(), Error::NotFound);
    assert!(delete);
}

#[test]
fn entry_at_its_expiry_instant_is_still_served() {
    // Expiry is strict: `expires_at < now`, so at `now == expires_at` the
    // entry is still live.
    let file = encode_entry(compute_expiry(100, Some(60)), b"edge");
    let (result, delete) = get_outcome(&Some(file), 160);
    assert_eq!(result.unwrap(), b"edge".to_vec());
    assert!(!delete);
}

#[test]
fn missing_file_is_not_found_without_deletion() {
    let (result, delete) = get_outcome(&None, 42);
    assert_eq!(result.unwrap_err(), Error::NotFound);
    assert!(!delete);
}

#[test]
fn truncated_file_is_invalid_data_and_deleted() {
    for len in 0..10 {
        let file = vec![0u8; len];
        let (result, delete) = get_outcome(&Some(file), 42);
        assert_eq!(result.unwrap_err(), Error::InvalidData);
        assert!(delete);
    }
    // Exactly ten bytes is a valid, empty, never-expiring entry.
    let (result, delete) = get_outcome(&Some(vec![0u8; 10]), 42);
    assert_eq!(result.unwrap(), Vec::<u8>::new());
    assert!(!delete);
}

#[test]
fn sweep_deletes_what_get_would_evict() {
    let now = 500;
    // Unreadable header: corrupt, delete.
    assert!(sweep_decision(&None, now));
    // Short header: corrupt, delete.
    assert!(sweep_decision(&Some(vec![0u8; 3]), now));
    // Expired: delete.
    let stale = encode_entry(499, b"");
    assert!(sweep_decision(&Some(stale[..10].to_vec()), now));
    // At the expiry instant: keep.
    let edge = encode_entry(500, b"");
    assert!(!sweep_decision(&Some(edge[..10].to_vec()), now));
    // No expiry: keep forever.
    let forever = encode_entry(0, b"");
    assert!(!sweep_decision(&Some(forever[..10].to_vec()), u64::MAX));
}

#[test]
fn clock_reads_as_unix_seconds() {
    // A plausible wall clock: strictly after 2001, and an entry written now
    // with a generous TTL reads back as live.
    let t = now();
    assert!(t > 1_000_000_000);
    let file = encode_entry(compute_expiry(t, Some(3600)), b"fresh");
    let (result, delete) = get_outcome(&Some(file), now());
    assert_eq!(result.unwrap(), b"fresh".to_vec());
    assert!(!delete);
}

#[test]
fn error_descriptions() {
    assert_eq!(Error::NotFound.describe(), "cache not found or expired");
    assert_eq!(Error::InvalidData.describe(), "cache data is invalid or corrupted");
    assert_eq!(Error::WorkerClosed.describe(), "worker response channel closed");
    assert_eq!(Error::Io.describe(), "filesystem operation failed");
    assert_eq!(Error::LockAcquisition.describe(), "cache root is locked by another process");
}
