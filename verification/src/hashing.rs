//! SHA-256 digests, hex rendering, and the deterministic per-connection jitter.

use vstd::prelude::*;
use sha2::Digest;

verus! {

use vstd::bytes::{u64_to_le_bytes, u64_from_le_bytes, spec_u64_to_le_bytes, spec_u64_from_le_bytes};
use vstd::slice::slice_subrange;

/// The SHA-256 digest of `head` followed by the UTF-8 bytes of `text`.
/// Stands for what `sha2::Sha256` computes; no contract here states the
/// algorithm itself, only that the digest is a function of the input bytes.
pub uninterp spec fn sha256_of(head: Seq<u8>, text: Seq<char>) -> Seq<u8>;

/// Relies on sha2's `Sha256` (via the `Digest` trait): hashes the bytes of
/// `head` followed by the UTF-8 bytes of `text` and returns the 32-byte digest.
#[verifier::external_body]
pub fn sha256_digest(head: &Vec<u8>, text: &str) -> (r: Vec<u8>)
    ensures
        r@ == sha256_of(head@, text@),
        r@.len() == 32,
{
    let mut hasher = sha2::Sha256::new();
    hasher.update(head.as_slice());
    hasher.update(text.as_bytes());
    hasher.finalize().to_vec()
}

/// The lower-case hex digit for a value below 16.
pub open spec fn spec_hex_digit(n: int) -> char {
    if n == 0 { '0' } else if n == 1 { '1' } else if n == 2 { '2' } else if n == 3 { '3' }
    else if n == 4 { '4' } else if n == 5 { '5' } else if n == 6 { '6' } else if n == 7 { '7' }
    else if n == 8 { '8' } else if n == 9 { '9' } else if n == 10 { 'a' } else if n == 11 { 'b' }
    else if n == 12 { 'c' } else if n == 13 { 'd' } else if n == 14 { 'e' } else { 'f' }
}

/// The character for one hex digit.
pub fn hex_digit_char(n: u32) -> (c: char)
    requires
        n < 16,
    ensures
        c == spec_hex_digit(n as int),
{
    match n {
        0 => '0',
        1 => '1',
        2 => '2',
        3 => '3',
        4 => '4',
        5 => '5',
        6 => '6',
        7 => '7',
        8 => '8',
        9 => '9',
        10 => 'a',
        11 => 'b',
        12 => 'c',
        13 => 'd',
        14 => 'e',
        _ => 'f',
    }
}

/// Lower-case hex rendering of a byte sequence, two digits per byte.
pub open spec fn spec_hex_lower(bytes: Seq<u8>) -> Seq<char>
    decreases bytes.len(),
{
    if bytes.len() == 0 {
        Seq::empty()
    } else {
        seq![spec_hex_digit(bytes[0] as int / 16), spec_hex_digit(bytes[0] as int % 16)]
            + spec_hex_lower(bytes.drop_first())
    }
}

/// Relies on `hex::encode`: renders each byte as two lower-case hex digits,
/// in order.
#[verifier::external_body]
pub fn hex_encode(bytes: &Vec<u8>) -> (r: String)
    ensures
        r@ == spec_hex_lower(bytes@),
{
    hex::encode(bytes.as_slice())
}

/// The sixteen big-endian bytes of a 128-bit identifier.
pub open spec fn spec_u128_be_bytes(x: u128) -> Seq<u8> {
    Seq::new(16, |i: int| (((x >> ((15 - i) * 8)) & 0xff) as u8))
}

/// Renders a 128-bit identifier as its sixteen big-endian bytes, the byte
/// order a UUID is displayed and stored in.
pub fn u128_be_bytes(x: u128) -> (r: Vec<u8>)
    ensures
        r@ == spec_u128_be_bytes(x),
{
    let mut out: Vec<u8> = Vec::new();
    let mut i: usize = 0;
    while i < 16
        invariant
            i <= 16,
            out@.len() == i,
            forall|j: int| 0 <= j < i ==> out@[j] == spec_u128_be_bytes(x)[j],
        decreases 16 - i,
    {
        let sh: u128 = ((15 - i) as u128) * 8;
        let b: u8 = ((x >> sh) & 0xff) as u8;
        assert(b == spec_u128_be_bytes(x)[i as int]);
        out.push(b);
        i = i + 1;
    }
    assert(out@ =~= spec_u128_be_bytes(x));
    out
}

/// The two's-complement 64-bit representation of a signed epoch second count.
pub open spec fn spec_i64_as_u64(t: i64) -> u64 {
    if t >= 0 {
        t as u64
    } else {
        (t + 0x1_0000_0000_0000_0000) as u64
    }
}

/// Converts a signed second count to the unsigned value with the same
/// two's-complement bit pattern, so that its little-endian bytes match what
/// `i64::to_le_bytes` would give.
pub fn i64_as_u64(t: i64) -> (r: u64)
    ensures
        r == spec_i64_as_u64(t),
{
    if t >= 0 {
        t as u64
    } else {
        let wide: i128 = (t as i128) + 0x1_0000_0000_0000_0000i128;
        wide as u64
    }
}

/// The seed bytes hashed for the jitter of connection `id` at second `now`:
/// the sixteen big-endian identifier bytes followed by the eight little-endian
/// bytes of the epoch second count.
pub open spec fn spec_jitter_seed(id: u128, now: i64) -> Seq<u8> {
    spec_u128_be_bytes(id) + spec_u64_to_le_bytes(spec_i64_as_u64(now))
}

/// Deterministic per-connection jitter in `[0, max_jitter_seconds]`: the first
/// eight digest bytes, read as a little-endian integer, reduced modulo
/// `max_jitter_seconds + 1`. Zero when the cap is not positive.
pub open spec fn spec_jitter(id: u128, now: i64, max_jitter_seconds: i64) -> int {
    if max_jitter_seconds <= 0 {
        0
    } else {
        (spec_u64_from_le_bytes(sha256_of(spec_jitter_seed(id, now), Seq::empty()).take(8)) as int)
            % (max_jitter_seconds + 1)
    }
}

/// Deterministic jitter for connection `id` at epoch second `now`, bounded by
/// `max_jitter_seconds`. Calls within the same calendar second get the same
/// value for the same connection.
pub fn jitter_seconds(id: u128, now: i64, max_jitter_seconds: i64) -> (j: i64)
    ensures
        j == spec_jitter(id, now, max_jitter_seconds),
        0 <= j,
        j <= max_jitter_seconds || j == 0,
{
    if max_jitter_seconds <= 0 {
        return 0;
    }
    let mut data = u128_be_bytes(id);
    let mut tbytes = u64_to_le_bytes(i64_as_u64(now));
    data.append(&mut tbytes);
    assert(data@ =~= spec_jitter_seed(id, now));
    let digest = sha256_digest(&data, "");
    proof {
        reveal_strlit("");
        assert(""@ =~= Seq::<char>::empty());
    }
    let first8 = slice_subrange(digest.as_slice(), 0, 8);
    assert(first8@ =~= sha256_of(spec_jitter_seed(id, now), Seq::empty()).take(8));
    let n = u64_from_le_bytes(first8);
    let modulus: u64 = (max_jitter_seconds as u64) + 1;
    let j = (n % modulus) as i64;
    j
}

/// Jitter stays within `[0, max(k, 0)]` for every connection and second.
pub proof fn lemma_jitter_in_range(id: u128, now: i64, k: i64)
    ensures
        0 <= spec_jitter(id, now, k),
        spec_jitter(id, now, k) <= (if k > 0 { k as int } else { 0 }),
{
}

} // verus!
