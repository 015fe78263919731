//! Token fingerprint derivation.
//!
//! `BitmapHash` is the fixed 9-byte posting-list key derived from a token's
//! bytes: a length byte saturated at [`MAX_TOKEN_LENGTH`], plus 8 hash
//! bytes.  Tokens of at most 8 bytes are stored verbatim, left-aligned and
//! zero-padded; longer tokens are fingerprinted by concatenating the
//! low-order four little-endian bytes of two independent 64-bit mixing
//! functions (xxHash3, then FarmHash), always computed over the full token
//! bytes even when the stored length saturates.

use vstd::prelude::*;

verus! {

broadcast use vstd::array::group_array_axioms;

/// Longest token length recorded in a key's length byte.  A longer token
/// still has its hash computed over all of its bytes; only the stored
/// length saturates here.
pub const MAX_TOKEN_LENGTH: usize = 255;

/// Digest that `xxhash_rust::xxh3::xxh3_64` computes over a byte sequence.
pub uninterp spec fn xxh3_of(bytes: Seq<u8>) -> u64;

/// Digest that `farmhash::hash64` computes over a byte sequence.
pub uninterp spec fn farm_of(bytes: Seq<u8>) -> u64;

/// The low-order four bytes of a 64-bit value, least significant first.
pub open spec fn le4(x: u64) -> Seq<u8> {
    seq![
        (x & 0xff) as u8,
        ((x >> 8) & 0xff) as u8,
        ((x >> 16) & 0xff) as u8,
        ((x >> 24) & 0xff) as u8,
    ]
}

/// The 8 hash bytes of a token: the token itself, zero-padded, when it
/// fits; otherwise the low four bytes of each of the two mixing functions,
/// computed over the full token.
pub open spec fn hash_bytes(t: Seq<u8>) -> Seq<u8> {
    if t.len() <= 8 {
        Seq::new(8, |i: int| if i < t.len() { t[i] } else { 0u8 })
    } else {
        le4(xxh3_of(t)) + le4(farm_of(t))
    }
}

/// The stored length byte: the token's byte length saturated at
/// [`MAX_TOKEN_LENGTH`].
pub open spec fn key_len(t: Seq<u8>) -> u8 {
    if t.len() < MAX_TOKEN_LENGTH {
        t.len() as u8
    } else {
        MAX_TOKEN_LENGTH as u8
    }
}

/// A 64-bit value read from 8 bytes, most significant byte first.
pub open spec fn u64_from_be_bytes(s: Seq<u8>) -> u64
    recommends
        s.len() == 8,
{
    ((s[0] as u64) << 56) | ((s[1] as u64) << 48) | ((s[2] as u64) << 40) | ((s[3] as u64) << 32)
        | ((s[4] as u64) << 24) | ((s[5] as u64) << 16) | ((s[6] as u64) << 8) | (s[7] as u64)
}

/// The 8 bytes of a 64-bit value, most significant byte first.
pub open spec fn u64_to_be_bytes(x: u64) -> Seq<u8> {
    seq![
        ((x >> 56) & 0xff) as u8,
        ((x >> 48) & 0xff) as u8,
        ((x >> 40) & 0xff) as u8,
        ((x >> 32) & 0xff) as u8,
        ((x >> 24) & 0xff) as u8,
        ((x >> 16) & 0xff) as u8,
        ((x >> 8) & 0xff) as u8,
        (x & 0xff) as u8,
    ]
}

/// The fixed 9-byte fingerprint of a token: 8 hash bytes and a saturated
/// length byte.  Equality and hashing over a value follow the raw bytes
/// exactly, so it can serve as a storage or lookup key.
#[derive(Debug, Clone, Copy, Hash, PartialEq, Eq)]
pub struct BitmapHash {
    pub hash: [u8; 8],
    pub len: u8,
}

/// Relies on `xxhash_rust::xxh3::xxh3_64`: a 64-bit digest determined by
/// the input bytes alone.
#[verifier::external_body]
fn xxh3_64(item: &[u8]) -> (r: u64)
    ensures
        r == xxh3_of(item@),
{
    xxhash_rust::xxh3::xxh3_64(item)
}

/// Relies on `farmhash::hash64`: a 64-bit digest determined by the input
/// bytes alone.
#[verifier::external_body]
fn farmhash64(item: &[u8]) -> (r: u64)
    ensures
        r == farm_of(item@),
{
    farmhash::hash64(item)
}

/// The 8 hash bytes of a token, as [`hash_bytes`] describes them.
fn hash(item: &[u8]) -> (r: [u8; 8])
    ensures
        r@ == hash_bytes(item@),
{
    let mut result: [u8; 8] = [0u8; 8];
    if item.len() <= 8 {
        let mut i: usize = 0;
        while i < item.len()
            invariant
                i <= item@.len() <= 8,
                result@.len() == 8,
                forall|j: int| 0 <= j < i ==> result@[j] == item@[j],
                forall|j: int| i <= j < 8 ==> result@[j] == 0u8,
            decreases item@.len() - i,
        {
            result[i] = item[i];
            i = i + 1;
        }
        proof {
            assert(result@ =~= hash_bytes(item@));
        }
    } else {
        let a = xxh3_64(item);
        let b = farmhash64(item);
        result[0] = (a & 0xff) as u8;
        result[1] = ((a >> 8) & 0xff) as u8;
        result[2] = ((a >> 16) & 0xff) as u8;
        result[3] = ((a >> 24) & 0xff) as u8;
        result[4] = (b & 0xff) as u8;
        result[5] = ((b >> 8) & 0xff) as u8;
        result[6] = ((b >> 16) & 0xff) as u8;
        result[7] = ((b >> 24) & 0xff) as u8;
        proof {
            assert(result@ =~= hash_bytes(item@));
        }
    }
    result
}

impl BitmapHash {
    /// Derives the fingerprint of a token.  Always succeeds: the length
    /// byte saturates at [`MAX_TOKEN_LENGTH`] while the hash is computed
    /// over the full token bytes, and a token of at most 8 bytes is kept
    /// verbatim in the hash bytes.
    pub fn new(item: &[u8]) -> (r: Self)
        ensures
            r.len == key_len(item@),
            r.hash@ == hash_bytes(item@),
            item@.len() <= MAX_TOKEN_LENGTH ==> r.len == item@.len(),
            item@.len() > MAX_TOKEN_LENGTH ==> r.len == MAX_TOKEN_LENGTH as u8,
    {
        let len: u8 = if item.len() < MAX_TOKEN_LENGTH {
            item.len() as u8
        } else {
            MAX_TOKEN_LENGTH as u8
        };
        Self { len, hash: hash(item) }
    }

    /// The hash bytes as a 64-bit integer, most significant byte first,
    /// for use as a map or bitmap key.
    pub fn to_u64(&self) -> (r: u64)
        ensures
            r == u64_from_be_bytes(self.hash@),
    {
        ((self.hash[0] as u64) << 56) | ((self.hash[1] as u64) << 48) | ((self.hash[2] as u64)
            << 40) | ((self.hash[3] as u64) << 32) | ((self.hash[4] as u64) << 24) | ((
        self.hash[5] as u64) << 16) | ((self.hash[6] as u64) << 8) | (self.hash[7] as u64)
    }
}

/// Deriving a key is deterministic: the length byte and the hash bytes are
/// functions of the token bytes alone, so two keys derived from the same
/// token are equal.
pub proof fn lemma_derive_deterministic(t: Seq<u8>, h1: BitmapHash, h2: BitmapHash)
    requires
        h1.len == key_len(t),
        h1.hash@ == hash_bytes(t),
        h2.len == key_len(t),
        h2.hash@ == hash_bytes(t),
    ensures
        h1 == h2,
{
    assert(h1.hash =~= h2.hash);
}

/// A token of at most 8 bytes is stored verbatim: its hash bytes are the
/// token itself, left-aligned and zero-padded, with no mixing at all.
pub proof fn lemma_short_token_identity(t: Seq<u8>)
    requires
        t.len() <= 8,
    ensures
        hash_bytes(t).len() == 8,
        forall|i: int| 0 <= i < t.len() ==> hash_bytes(t)[i] == t[i],
        forall|i: int| t.len() <= i < 8 ==> hash_bytes(t)[i] == 0u8,
{
}

/// A token of more than 8 bytes is fingerprinted by both mixing functions:
/// hash bytes 0 through 3 are the low four little-endian bytes of the
/// xxHash3 digest of the full token, and bytes 4 through 7 are the low
/// four little-endian bytes of its FarmHash digest.
pub proof fn lemma_long_token_structure(t: Seq<u8>)
    requires
        t.len() > 8,
    ensures
        hash_bytes(t).len() == 8,
        hash_bytes(t).subrange(0, 4) == le4(xxh3_of(t)),
        hash_bytes(t).subrange(4, 8) == le4(farm_of(t)),
{
    assert(hash_bytes(t).subrange(0, 4) =~= le4(xxh3_of(t)));
    assert(hash_bytes(t).subrange(4, 8) =~= le4(farm_of(t)));
}

/// Reading 8 bytes as a big-endian integer and writing that integer back
/// out, most significant byte first, reproduces the bytes exactly; so the
/// integer form of a key keeps the full hash.
pub proof fn lemma_to_u64_roundtrip(s: Seq<u8>)
    requires
        s.len() == 8,
    ensures
        u64_to_be_bytes(u64_from_be_bytes(s)) == s,
{
    let b0 = s[0];
    let b1 = s[1];
    let b2 = s[2];
    let b3 = s[3];
    let b4 = s[4];
    let b5 = s[5];
    let b6 = s[6];
    let b7 = s[7];
    let x = u64_from_be_bytes(s);
    assert(((x >> 56) & 0xff) as u8 == b0 && ((x >> 48) & 0xff) as u8 == b1 && ((x >> 40) & 0xff)
        as u8 == b2 && ((x >> 32) & 0xff) as u8 == b3 && ((x >> 24) & 0xff) as u8 == b4 && ((x
        >> 16) & 0xff) as u8 == b5 && ((x >> 8) & 0xff) as u8 == b6 && (x & 0xff) as u8 == b7)
        by (bit_vector)
        requires
            x == ((b0 as u64) << 56) | ((b1 as u64) << 48) | ((b2 as u64) << 40) | ((b3 as u64)
                << 32) | ((b4 as u64) << 24) | ((b5 as u64) << 16) | ((b6 as u64) << 8) | (
            b7 as u64),
    ;
    assert(u64_to_be_bytes(x) =~= s);
}

} // verus!
