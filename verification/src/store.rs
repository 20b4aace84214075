//! The store engine's computing core: key addressing and the on-disk entry
//! format, with the decisions Get and Set make over file contents.
//!
//! The filesystem itself is driven by the embedding program; everything that
//! decides *what* to read, write, or delete is here, stated over an abstract
//! view of the cache: a map from rendered hash to file bytes.

use vstd::prelude::*;
use vstd::slice::{slice_subrange, slice_to_vec};

use crate::error::Error;
use crate::utils::{
    hex3_val, hex_of, lemma_hex3_val_bound, lemma_hex_of_is_hex, lemma_u64_be_bytes_roundtrip,
    parse_hash, spec_u128_to_be_bytes, spec_u64_from_be_bytes, spec_u64_to_be_bytes,
    u128_to_be_bytes, u64_from_be_bytes, u64_to_be_bytes,
};

verus! {

/// The 128-bit digest that `xxhash_rust::xxh3::xxh3_128` computes from the
/// UTF-8 bytes of a key. A function of the key alone: the same key always
/// yields the same digest, in every process and on every machine.
pub uninterp spec fn xxh3_128_of(key: Seq<char>) -> u128;

/// Relies on `xxhash_rust::xxh3::xxh3_128`: a deterministic 128-bit digest
/// of the input bytes alone, without seed or environment.
#[verifier::external_body]
fn xxh3_128(input: &str) -> (r: u128)
    ensures
        r == xxh3_128_of(input@),
{
    xxhash_rust::xxh3::xxh3_128(input.as_bytes())
}

/// Relies on `faster_hex::hex_encode`: two lowercase hexadecimal digits per
/// input byte, most significant nibble first, in input order; 16 input bytes
/// always fit the 32-byte buffer.
#[verifier::external_body]
fn hex_encode16(bytes: &Vec<u8>) -> (r: Vec<u8>)
    requires
        bytes@.len() == 16,
    ensures
        r@ == hex_of(bytes@),
{
    let mut buf = vec![0u8; 32];
    faster_hex::hex_encode(bytes.as_slice(), &mut buf).expect("buffer sized for the digest");
    buf
}

/// The rendered hash of a key: its 128-bit digest, big-endian, as 32
/// lowercase hexadecimal characters.
pub open spec fn hash_hex(key: Seq<char>) -> Seq<u8> {
    hex_of(spec_u128_to_be_bytes(xxh3_128_of(key)))
}

/// The shard a key belongs to: the value of the first 3 hexadecimal
/// characters of its rendered hash.
pub open spec fn shard_of(key: Seq<char>) -> u16 {
    hex3_val(hash_hex(key).subrange(0, 3))
}

/// Hashes a key to the 32 hexadecimal characters that address its entry.
pub fn hash(input: &str) -> (r: Vec<u8>)
    ensures
        r@ == hash_hex(input@),
        r@.len() == 32,
{
    let digest = xxh3_128(input);
    let be = u128_to_be_bytes(digest);
    hex_encode16(&be)
}

/// Addresses a key: the shard directory name (3 hex characters), the entry
/// file name (the remaining 29), and the shard id, always below the shard
/// count.
pub fn locate(key: &str) -> (r: (Vec<u8>, Vec<u8>, u16))
    ensures
        r.0@ == hash_hex(key@).subrange(0, 3),
        r.1@ == hash_hex(key@).subrange(3, 32),
        r.2 == shard_of(key@),
        r.2 < crate::SHARD_COUNT,
{
    let h = hash(key);
    proof {
        lemma_hex_of_is_hex(spec_u128_to_be_bytes(xxh3_128_of(key@)));
        lemma_hex3_val_bound(hash_hex(key@).subrange(0, 3));
        assert(hash_hex(key@).subrange(0, 3)[0] == hash_hex(key@)[0]);
        assert(hash_hex(key@).subrange(0, 3)[1] == hash_hex(key@)[1]);
        assert(hash_hex(key@).subrange(0, 3)[2] == hash_hex(key@)[2]);
    }
    let (prefix, rest, shard_id) = parse_hash(h.as_slice());
    let dir = slice_to_vec(prefix);
    let file = slice_to_vec(rest);
    (dir, file, shard_id)
}

/// The bytes of an entry file: 2 reserved zero bytes, the expiry timestamp
/// as 8 big-endian bytes (0 meaning "never expires"), then the raw value.
pub open spec fn entry_bytes(expires_at: u64, value: Seq<u8>) -> Seq<u8> {
    seq![0u8, 0u8] + spec_u64_to_be_bytes(expires_at) + value
}

/// The expiry timestamp stored in an entry file's header.
pub open spec fn entry_expiry(file: Seq<u8>) -> u64
    recommends
        file.len() >= 10,
{
    spec_u64_from_be_bytes(file.subrange(2, 10))
}

/// Whether an entry with this expiry timestamp is logically absent at `now`.
/// A timestamp of 0 never expires.
pub open spec fn is_expired(expires_at: u64, now: u64) -> bool {
    expires_at != 0 && expires_at < now
}

/// The expiry timestamp a Set writes: `now` plus the time to live, or 0 when
/// no time to live is given.
pub open spec fn expiry_for(now: u64, ttl_secs: Option<u64>) -> u64
    recommends
        ttl_secs matches Some(t) ==> now + t <= u64::MAX,
{
    match ttl_secs {
        None => 0,
        Some(t) => (now + t) as u64,
    }
}

/// What a Get finds once the entry file has been read (or found missing).
pub enum Lookup {
    /// No entry file exists.
    Missing,
    /// The file is shorter than the fixed header: corrupt.
    Corrupt,
    /// The header is intact but the entry's time to live has elapsed.
    Expired,
    /// The entry is live and holds this payload.
    Live(Seq<u8>),
}

/// Classifies an entry file's contents at time `now`.
pub open spec fn lookup(file: Option<Seq<u8>>, now: u64) -> Lookup {
    match file {
        None => Lookup::Missing,
        Some(b) => if b.len() < 10 {
            Lookup::Corrupt
        } else if is_expired(entry_expiry(b), now) {
            Lookup::Expired
        } else {
            Lookup::Live(b.subrange(10, b.len() as int))
        },
    }
}

/// Computes the expiry timestamp a Set writes.
pub fn compute_expiry(now: u64, ttl_secs: Option<u64>) -> (r: u64)
    requires
        ttl_secs matches Some(t) ==> now + t <= u64::MAX,
    ensures
        r == expiry_for(now, ttl_secs),
{
    match ttl_secs {
        None => 0,
        Some(t) => now + t,
    }
}

/// Builds the bytes a Set writes for this expiry timestamp and value.
pub fn encode_entry(expires_at: u64, value: &[u8]) -> (r: Vec<u8>)
    ensures
        r@ == entry_bytes(expires_at, value@),
{
    let mut r: Vec<u8> = Vec::new();
    r.push(0);
    r.push(0);
    let mut be = u64_to_be_bytes(expires_at);
    r.append(&mut be);
    r.extend_from_slice(value);
    proof {
        assert(r@ =~= entry_bytes(expires_at, value@));
    }
    r
}

/// Decides a Get from the entry file's contents (`None` when no file
/// exists) at time `now`: the caller's result, and whether the entry file
/// must be deleted (best effort) as a side effect. A missing entry is
/// `NotFound`; a corrupt one is `InvalidData` and is deleted; an expired one
/// is `NotFound` and is deleted; a live one yields its payload.
pub fn get_outcome(contents: &Option<Vec<u8>>, now: u64) -> (r: (Result<Vec<u8>, Error>, bool))
    ensures
        lookup(opt_view(*contents), now) is Missing ==> r == (
            Result::<Vec<u8>, Error>::Err(Error::NotFound),
            false,
        ),
        lookup(opt_view(*contents), now) is Corrupt ==> r == (
            Result::<Vec<u8>, Error>::Err(Error::InvalidData),
            true,
        ),
        lookup(opt_view(*contents), now) is Expired ==> r == (
            Result::<Vec<u8>, Error>::Err(Error::NotFound),
            true,
        ),
        lookup(opt_view(*contents), now) matches Lookup::Live(v) ==> r.1 == false && (
        r.0 matches Ok(p) && p@ == v),
{
    match contents {
        None => (Err(Error::NotFound), false),
        Some(buffer) => {
            if buffer.len() < 10 {
                (Err(Error::InvalidData), true)
            } else {
                let header = slice_subrange(buffer.as_slice(), 2, 10);
                let expires_at = u64_from_be_bytes(header);
                if expires_at != 0 && expires_at < now {
                    (Err(Error::NotFound), true)
                } else {
                    let payload = slice_to_vec(
                        slice_subrange(buffer.as_slice(), 10, buffer.len()),
                    );
                    (Ok(payload), false)
                }
            }
        },
    }
}

/// The contents of an optional buffer, as a sequence.
pub open spec fn opt_view(contents: Option<Vec<u8>>) -> Option<Seq<u8>> {
    match contents {
        None => None,
        Some(v) => Some(v@),
    }
}

// The cache as a whole, abstractly: a map from rendered hash to the bytes of
// the entry file stored under it. Set, Remove, and Clear are map updates;
// Get is `lookup` on the addressed entry.

/// The cache after `set(key, value, ttl)` ran at the time the expiry
/// timestamp was computed from.
pub open spec fn cache_set(
    files: Map<Seq<u8>, Seq<u8>>,
    key: Seq<char>,
    expires_at: u64,
    value: Seq<u8>,
) -> Map<Seq<u8>, Seq<u8>> {
    files.insert(hash_hex(key), entry_bytes(expires_at, value))
}

/// The cache after `remove(key)`.
pub open spec fn cache_remove(files: Map<Seq<u8>, Seq<u8>>, key: Seq<char>) -> Map<
    Seq<u8>,
    Seq<u8>,
> {
    files.remove(hash_hex(key))
}

/// The cache after `clear()`: no entries in any shard.
pub open spec fn cache_clear(files: Map<Seq<u8>, Seq<u8>>) -> Map<Seq<u8>, Seq<u8>> {
    Map::empty()
}

/// What `get(key)` finds in the cache at time `now`.
pub open spec fn cache_lookup(files: Map<Seq<u8>, Seq<u8>>, key: Seq<char>, now: u64) -> Lookup {
    if files.dom().contains(hash_hex(key)) {
        lookup(Some(files[hash_hex(key)]), now)
    } else {
        lookup(None, now)
    }
}

/// A freshly written entry reads back: after `set(key, value)` with an
/// expiry that has not elapsed (in particular, immediately), `get(key)`
/// yields exactly the written value.
pub proof fn law_set_then_get(
    files: Map<Seq<u8>, Seq<u8>>,
    key: Seq<char>,
    expires_at: u64,
    value: Seq<u8>,
    now: u64,
)
    requires
        !is_expired(expires_at, now),
    ensures
        cache_lookup(cache_set(files, key, expires_at, value), key, now) == Lookup::Live(value),
{
    let b = entry_bytes(expires_at, value);
    lemma_u64_be_bytes_roundtrip(expires_at);
    assert(b.subrange(2, 10) =~= spec_u64_to_be_bytes(expires_at));
    assert(b.subrange(10, b.len() as int) =~= value);
}

/// Writing one key leaves every entry under a different hash untouched.
pub proof fn law_set_preserves_others(
    files: Map<Seq<u8>, Seq<u8>>,
    key: Seq<char>,
    expires_at: u64,
    value: Seq<u8>,
    other: Seq<char>,
    now: u64,
)
    requires
        hash_hex(key) != hash_hex(other),
    ensures
        cache_lookup(cache_set(files, key, expires_at, value), other, now) == cache_lookup(
            files,
            other,
            now,
        ),
{
}

/// After `remove(key)`, `get(key)` finds nothing, whatever the time.
pub proof fn law_get_after_remove(files: Map<Seq<u8>, Seq<u8>>, key: Seq<char>, now: u64)
    ensures
        cache_lookup(cache_remove(files, key), key, now) == Lookup::Missing,
{
}

/// Removing an absent key changes nothing: `remove` is idempotent.
pub proof fn law_remove_absent(files: Map<Seq<u8>, Seq<u8>>, key: Seq<char>)
    requires
        !files.dom().contains(hash_hex(key)),
    ensures
        cache_remove(files, key) == files,
{
    assert(cache_remove(files, key) =~= files);
}

/// An entry written with a positive time to live is expired once the clock
/// has passed its expiry timestamp. (At the timestamp itself — elapsed time
/// exactly the time to live — the entry is still served: expiry is strict.)
pub proof fn law_ttl_expires(
    files: Map<Seq<u8>, Seq<u8>>,
    key: Seq<char>,
    value: Seq<u8>,
    set_now: u64,
    ttl: u64,
    get_now: u64,
)
    requires
        ttl > 0,
        set_now + ttl <= u64::MAX,
        get_now > set_now + ttl,
    ensures
        cache_lookup(
            cache_set(files, key, expiry_for(set_now, Some(ttl)), value),
            key,
            get_now,
        ) == Lookup::Expired,
{
    let expires_at = expiry_for(set_now, Some(ttl));
    let b = entry_bytes(expires_at, value);
    lemma_u64_be_bytes_roundtrip(expires_at);
    assert(b.subrange(2, 10) =~= spec_u64_to_be_bytes(expires_at));
}

/// An entry written without a time to live never expires: `get` yields it
/// whatever the clock says.
pub proof fn law_no_ttl_never_expires(
    files: Map<Seq<u8>, Seq<u8>>,
    key: Seq<char>,
    value: Seq<u8>,
    set_now: u64,
    get_now: u64,
)
    ensures
        cache_lookup(
            cache_set(files, key, expiry_for(set_now, None), value),
            key,
            get_now,
        ) == Lookup::Live(value),
{
    law_set_then_get(files, key, 0, value, get_now);
}

/// An entry file shorter than the fixed header is corrupt, and once its file
/// is deleted the key reads as missing.
pub proof fn law_corrupt_then_gone(files: Map<Seq<u8>, Seq<u8>>, key: Seq<char>, now: u64)
    requires
        files.dom().contains(hash_hex(key)),
        files[hash_hex(key)].len() < 10,
    ensures
        cache_lookup(files, key, now) == Lookup::Corrupt,
        cache_lookup(cache_remove(files, key), key, now) == Lookup::Missing,
{
}

/// After `clear()`, every key reads as missing.
pub proof fn law_clear_forgets_all(files: Map<Seq<u8>, Seq<u8>>, key: Seq<char>, now: u64)
    ensures
        cache_lookup(cache_clear(files), key, now) == Lookup::Missing,
{
}

/// Whether these bytes are a fully written entry: the exact output of
/// `encode_entry` for some expiry timestamp and value.
pub open spec fn is_written_entry(b: Seq<u8>) -> bool {
    exists|e: u64, v: Seq<u8>| b == #[trigger] entry_bytes(e, v)
}

/// No torn reads: in a cache whose files are all fully written entries — the
/// shard write locks keep a `get` from ever observing a partial `set` — a
/// `get` that yields a value yields exactly the payload some `set` wrote,
/// with an expiry that has not elapsed.
pub proof fn law_get_yields_only_written_values(
    files: Map<Seq<u8>, Seq<u8>>,
    key: Seq<char>,
    now: u64,
)
    requires
        forall|p: Seq<u8>| files.dom().contains(p) ==> is_written_entry(#[trigger] files[p]),
    ensures
        cache_lookup(files, key, now) matches Lookup::Live(payload) ==> exists|e: u64|
            files[hash_hex(key)] == #[trigger] entry_bytes(e, payload) && !is_expired(e, now),
{
    let h = hash_hex(key);
    if cache_lookup(files, key, now) is Live {
        let payload = cache_lookup(files, key, now)->Live_0;
        assert(files.dom().contains(h));
        assert(is_written_entry(files[h]));
        let (e, v): (u64, Seq<u8>) = choose|e: u64, v: Seq<u8>| files[h] == #[trigger] entry_bytes(
            e,
            v,
        );
        let b = entry_bytes(e, v);
        lemma_u64_be_bytes_roundtrip(e);
        assert(b.subrange(2, 10) =~= spec_u64_to_be_bytes(e));
        assert(b.subrange(10, b.len() as int) =~= v);
        assert(files[h] == entry_bytes(e, payload));
    }
}

} // verus!
