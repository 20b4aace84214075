//! Shared helpers: the wall clock, big-endian integer encoding, hexadecimal
//! digits, and splitting a hash string into shard prefix and filename.

use vstd::prelude::*;
use vstd::slice::{slice_index_get, slice_subrange};

verus! {

/// Relies on `std::time::SystemTime::now` and `duration_since`: seconds since
/// the Unix epoch. The machine's clock decides the result, so nothing is
/// promised of it; a clock set before the epoch yields 0 rather than a panic.
#[verifier::external_body]
pub fn now() -> u64 {
    std::time::SystemTime::now()
        .duration_since(std::time::UNIX_EPOCH)
        .map(|d| d.as_secs())
        .unwrap_or(0)
}

/// The eight bytes of `x`, most significant first.
pub open spec fn spec_u64_to_be_bytes(x: u64) -> Seq<u8> {
    seq![
        (x >> 56) as u8,
        (x >> 48) as u8,
        (x >> 40) as u8,
        (x >> 32) as u8,
        (x >> 24) as u8,
        (x >> 16) as u8,
        (x >> 8) as u8,
        x as u8,
    ]
}

/// The unsigned 64-bit value read from eight bytes, most significant first.
pub open spec fn spec_u64_from_be_bytes(s: Seq<u8>) -> u64
    recommends
        s.len() == 8,
{
    ((s[0] as u64) << 56) | ((s[1] as u64) << 48) | ((s[2] as u64) << 40) | ((s[3] as u64) << 32)
        | ((s[4] as u64) << 24) | ((s[5] as u64) << 16) | ((s[6] as u64) << 8) | (s[7] as u64)
}

/// The sixteen bytes of `x`, most significant first.
pub open spec fn spec_u128_to_be_bytes(x: u128) -> Seq<u8> {
    seq![
        (x >> 120) as u8,
        (x >> 112) as u8,
        (x >> 104) as u8,
        (x >> 96) as u8,
        (x >> 88) as u8,
        (x >> 80) as u8,
        (x >> 72) as u8,
        (x >> 64) as u8,
        (x >> 56) as u8,
        (x >> 48) as u8,
        (x >> 40) as u8,
        (x >> 32) as u8,
        (x >> 24) as u8,
        (x >> 16) as u8,
        (x >> 8) as u8,
        x as u8,
    ]
}

pub fn u64_to_be_bytes(x: u64) -> (r: Vec<u8>)
    ensures
        r@ == spec_u64_to_be_bytes(x),
{
    let mut r: Vec<u8> = Vec::new();
    r.push((x >> 56) as u8);
    r.push((x >> 48) as u8);
    r.push((x >> 40) as u8);
    r.push((x >> 32) as u8);
    r.push((x >> 24) as u8);
    r.push((x >> 16) as u8);
    r.push((x >> 8) as u8);
    r.push(x as u8);
    proof {
        assert(r@ =~= spec_u64_to_be_bytes(x));
    }
    r
}

pub fn u64_from_be_bytes(s: &[u8]) -> (r: u64)
    requires
        s@.len() == 8,
    ensures
        r == spec_u64_from_be_bytes(s@),
{
    let b0 = *slice_index_get(s, 0);
    let b1 = *slice_index_get(s, 1);
    let b2 = *slice_index_get(s, 2);
    let b3 = *slice_index_get(s, 3);
    let b4 = *slice_index_get(s, 4);
    let b5 = *slice_index_get(s, 5);
    let b6 = *slice_index_get(s, 6);
    let b7 = *slice_index_get(s, 7);
    ((b0 as u64) << 56) | ((b1 as u64) << 48) | ((b2 as u64) << 40) | ((b3 as u64) << 32)
        | ((b4 as u64) << 24) | ((b5 as u64) << 16) | ((b6 as u64) << 8) | (b7 as u64)
}

pub fn u128_to_be_bytes(x: u128) -> (r: Vec<u8>)
    ensures
        r@ == spec_u128_to_be_bytes(x),
{
    let mut r: Vec<u8> = Vec::new();
    r.push((x >> 120) as u8);
    r.push((x >> 112) as u8);
    r.push((x >> 104) as u8);
    r.push((x >> 96) as u8);
    r.push((x >> 88) as u8);
    r.push((x >> 80) as u8);
    r.push((x >> 72) as u8);
    r.push((x >> 64) as u8);
    r.push((x >> 56) as u8);
    r.push((x >> 48) as u8);
    r.push((x >> 40) as u8);
    r.push((x >> 32) as u8);
    r.push((x >> 24) as u8);
    r.push((x >> 16) as u8);
    r.push((x >> 8) as u8);
    r.push(x as u8);
    proof {
        assert(r@ =~= spec_u128_to_be_bytes(x));
    }
    r
}

/// Writing a 64-bit value big-endian and reading it back yields the value.
pub proof fn lemma_u64_be_bytes_roundtrip(x: u64)
    ensures
        spec_u64_from_be_bytes(spec_u64_to_be_bytes(x)) == x,
{
    assert((((x >> 56) as u8) as u64) << 56 | (((x >> 48) as u8) as u64) << 48 | (((x
        >> 40) as u8) as u64) << 40 | (((x >> 32) as u8) as u64) << 32 | (((x
        >> 24) as u8) as u64) << 24 | (((x >> 16) as u8) as u64) << 16 | (((x
        >> 8) as u8) as u64) << 8 | ((x as u8) as u64) == x) by (bit_vector);
}

/// Whether `c` is an ASCII hexadecimal digit.
pub open spec fn is_hex_char(c: u8) -> bool {
    (48 <= c && c <= 57) || (97 <= c && c <= 102) || (65 <= c && c <= 70)
}

/// The numeric value of an ASCII hexadecimal digit.
pub open spec fn hex_char_val(c: u8) -> u8
    recommends
        is_hex_char(c),
{
    if 48 <= c && c <= 57 {
        (c - 48) as u8
    } else if 97 <= c && c <= 102 {
        (c - 87) as u8
    } else {
        (c - 55) as u8
    }
}

/// The lowercase hexadecimal digit for a value below 16.
pub open spec fn spec_hex_digit(n: u8) -> u8
    recommends
        n < 16,
{
    if n < 10 {
        (48 + n) as u8
    } else {
        (87 + n) as u8
    }
}

/// The lowercase hexadecimal rendering of `bytes`: two digits per byte,
/// most significant nibble first, in input order.
pub open spec fn hex_of(bytes: Seq<u8>) -> Seq<u8> {
    Seq::new(
        bytes.len() * 2,
        |i: int|
            if i % 2 == 0 {
                spec_hex_digit(bytes[i / 2] >> 4)
            } else {
                spec_hex_digit(bytes[i / 2] & 0xf)
            },
    )
}

/// The value of three hexadecimal digits read as a base-16 number.
pub open spec fn hex3_val(s: Seq<u8>) -> u16
    recommends
        s.len() == 3,
        is_hex_char(s[0]) && is_hex_char(s[1]) && is_hex_char(s[2]),
{
    (hex_char_val(s[0]) as u16 * 256 + hex_char_val(s[1]) as u16 * 16 + hex_char_val(
        s[2],
    ) as u16) as u16
}

/// Both nibbles of a byte are below 16.
pub proof fn lemma_u8_nibbles(b: u8)
    ensures
        b >> 4 < 16,
        b & 0xf < 16,
{
    assert(b >> 4 < 16 && b & 0xf < 16) by (bit_vector);
}

/// A hexadecimal digit is a hex character, and reading it back yields the
/// value it was written from.
pub proof fn lemma_hex_digit_val(n: u8)
    requires
        n < 16,
    ensures
        is_hex_char(spec_hex_digit(n)),
        hex_char_val(spec_hex_digit(n)) == n,
{
}

/// Every character of a hexadecimal rendering is a hex character.
pub proof fn lemma_hex_of_is_hex(bytes: Seq<u8>)
    ensures
        hex_of(bytes).len() == bytes.len() * 2,
        forall|i: int| 0 <= i < hex_of(bytes).len() ==> is_hex_char(#[trigger] hex_of(bytes)[i]),
{
    assert forall|i: int| 0 <= i < hex_of(bytes).len() implies is_hex_char(
        #[trigger] hex_of(bytes)[i],
    ) by {
        lemma_u8_nibbles(bytes[i / 2]);
        if i % 2 == 0 {
            lemma_hex_digit_val(bytes[i / 2] >> 4);
        } else {
            lemma_hex_digit_val(bytes[i / 2] & 0xf);
        }
    }
}

/// Three hexadecimal digits always read as a value below 4096.
pub proof fn lemma_hex3_val_bound(s: Seq<u8>)
    requires
        s.len() == 3,
        is_hex_char(s[0]) && is_hex_char(s[1]) && is_hex_char(s[2]),
    ensures
        hex3_val(s) < 4096,
{
}

/// The numeric value of one ASCII hexadecimal digit, or `None` for any
/// other byte.
pub fn hex_char_value(c: u8) -> (r: Option<u8>)
    ensures
        is_hex_char(c) ==> r == Some(hex_char_val(c)),
        !is_hex_char(c) ==> r is None,
        r matches Some(v) ==> v < 16,
{
    if 48 <= c && c <= 57 {
        Some(c - 48)
    } else if 97 <= c && c <= 102 {
        Some(c - 87)
    } else if 65 <= c && c <= 70 {
        Some(c - 55)
    } else {
        None
    }
}

/// Splits a rendered hash into the 3-character shard prefix (directory name),
/// the remaining characters (file name), and the shard id parsed from the
/// prefix as base-16. A prefix that is not all hexadecimal falls back to
/// shard 0 rather than erroring; well-formed hash output never takes that
/// path.
pub fn parse_hash(h: &[u8]) -> (r: (&[u8], &[u8], u16))
    requires
        h@.len() >= 3,
    ensures
        r.0@ == h@.subrange(0, 3),
        r.1@ == h@.subrange(3, h@.len() as int),
        r.2 < 4096,
        is_hex_char(h@[0]) && is_hex_char(h@[1]) && is_hex_char(h@[2]) ==> r.2 == hex3_val(
            h@.subrange(0, 3),
        ),
        !(is_hex_char(h@[0]) && is_hex_char(h@[1]) && is_hex_char(h@[2])) ==> r.2 == 0,
{
    let prefix = slice_subrange(h, 0, 3);
    let rest = slice_subrange(h, 3, h.len());
    let d0 = hex_char_value(*slice_index_get(h, 0));
    let d1 = hex_char_value(*slice_index_get(h, 1));
    let d2 = hex_char_value(*slice_index_get(h, 2));
    let shard_id: u16 = match (d0, d1, d2) {
        (Some(v0), Some(v1), Some(v2)) => v0 as u16 * 256 + v1 as u16 * 16 + v2 as u16,
        _ => 0,
    };
    proof {
        assert(h@.subrange(0, 3)[0] == h@[0]);
        assert(h@.subrange(0, 3)[1] == h@[1]);
        assert(h@.subrange(0, 3)[2] == h@[2]);
    }
    (prefix, rest, shard_id)
}

} // verus!
