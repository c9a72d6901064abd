//! Fingerprints: the key under which a script's build is cached.
//!
//! The fingerprint of a script is the lowercase hexadecimal form of the
//! SHA-256 digest of its raw bytes. Nothing is stripped or normalised before
//! hashing, so a shebang line or a frontmatter block is part of what is hashed.

use sha2::Digest;
use vstd::prelude::*;

verus! {

/// Number of bytes in a SHA-256 digest.
pub const DIGEST_LEN: usize = 32;

/// Number of characters in a fingerprint.
pub const FINGERPRINT_LEN: usize = 64;

/// The SHA-256 digest of `bytes`, as computed by the `sha2` crate.
pub uninterp spec fn sha256(bytes: Seq<u8>) -> Seq<u8>;

/// The lowercase hexadecimal digit for a value below sixteen.
pub open spec fn hex_digit(nibble: int) -> char {
    seq!['0', '1', '2', '3', '4', '5', '6', '7', '8', '9', 'a', 'b', 'c', 'd', 'e', 'f'][nibble]
}

/// Lowercase hexadecimal encoding: two digits for each byte, the high half
/// first.
pub open spec fn hex_lower(bytes: Seq<u8>) -> Seq<char> {
    Seq::new(
        2 * bytes.len(),
        |i: int|
            if i % 2 == 0 {
                hex_digit(bytes[i / 2] as int / 16)
            } else {
                hex_digit(bytes[i / 2] as int % 16)
            },
    )
}

/// Whether `c` is a lowercase hexadecimal digit.
pub open spec fn is_hex_digit(c: char) -> bool {
    ('0' <= c && c <= '9') || ('a' <= c && c <= 'f')
}

/// The fingerprint of a script with these raw bytes.
pub open spec fn fingerprint(bytes: Seq<u8>) -> Seq<char> {
    hex_lower(sha256(bytes))
}

/// Calls `sha2::Sha256::digest`, the one-shot form of the hasher.
///
/// Trusted: the result is the digest that the crate computes for these
/// bytes, a function of the bytes alone, and it is 32 bytes long (the
/// hasher's output size is fixed at 256 bits).
#[verifier::external_body]
fn sha256_digest(bytes: &[u8]) -> (digest: Vec<u8>)
    ensures
        digest@ == sha256(bytes@),
        digest@.len() == DIGEST_LEN,
{
    sha2::Sha256::digest(bytes).to_vec()
}

/// Calls `hex::encode`.
///
/// Trusted: the crate documents the result as the lowercase hexadecimal
/// form of the input, two digits per byte; its source takes the high four
/// bits of each byte first.
#[verifier::external_body]
fn hex_encode(bytes: &[u8]) -> (text: String)
    ensures
        text@ == hex_lower(bytes@),
{
    hex::encode(bytes)
}

/// Writes `bytes` in lowercase hexadecimal.
pub fn to_hex(bytes: &[u8]) -> (text: String)
    ensures
        text@ == hex_lower(bytes@),
{
    hex_encode(bytes)
}

/// Computes the fingerprint of a script from its raw bytes: sixty-four
/// lowercase hexadecimal digits that depend on the bytes alone.
pub fn get_key(input: &[u8]) -> (key: String)
    ensures
        key@ == fingerprint(input@),
        key@.len() == FINGERPRINT_LEN,
        forall|i: int| 0 <= i < key@.len() ==> is_hex_digit(#[trigger] key@[i]),
{
    let digest = sha256_digest(input);
    proof {
        lemma_hex_lower_shape(digest@);
    }
    to_hex(digest.as_slice())
}

/// Distinct digits stand for distinct values.
proof fn lemma_hex_digit_injective(a: int, b: int)
    requires
        0 <= a < 16,
        0 <= b < 16,
        hex_digit(a) == hex_digit(b),
    ensures
        a == b,
{
}

/// Hexadecimal encoding loses nothing: two byte sequences with the same
/// encoding are the same sequence.
pub proof fn lemma_hex_lower_injective(a: Seq<u8>, b: Seq<u8>)
    requires
        hex_lower(a) == hex_lower(b),
    ensures
        a == b,
{
    assert(hex_lower(a).len() == 2 * a.len());
    assert(hex_lower(b).len() == 2 * b.len());
    assert(a.len() == b.len());
    assert forall|j: int| 0 <= j < a.len() implies a[j] == b[j] by {
        let x = a[j] as int;
        let y = b[j] as int;
        assert(hex_lower(a)[2 * j] == hex_digit(x / 16));
        assert(hex_lower(b)[2 * j] == hex_digit(y / 16));
        assert(hex_lower(a)[2 * j + 1] == hex_digit(x % 16));
        assert(hex_lower(b)[2 * j + 1] == hex_digit(y % 16));
        lemma_hex_digit_injective(x / 16, y / 16);
        lemma_hex_digit_injective(x % 16, y % 16);
    }
    assert(a =~= b);
}

/// Two inputs have the same fingerprint exactly when they have the same
/// digest: the fingerprint adds no collisions to those of SHA-256.
pub proof fn lemma_fingerprint_separates(a: Seq<u8>, b: Seq<u8>)
    ensures
        fingerprint(a) == fingerprint(b) <==> sha256(a) == sha256(b),
{
    if fingerprint(a) == fingerprint(b) {
        lemma_hex_lower_injective(sha256(a), sha256(b));
    }
}

/// A hexadecimal encoding is twice as long as its input and made of
/// lowercase hexadecimal digits only.
pub proof fn lemma_hex_lower_shape(bytes: Seq<u8>)
    ensures
        hex_lower(bytes).len() == 2 * bytes.len(),
        forall|i: int| 0 <= i < hex_lower(bytes).len() ==> is_hex_digit(#[trigger] hex_lower(bytes)[i]),
{
    assert forall|i: int| 0 <= i < hex_lower(bytes).len() implies is_hex_digit(
        #[trigger] hex_lower(bytes)[i],
    ) by {
        let x = bytes[i / 2] as int;
        assert(0 <= x / 16 < 16);
        assert(0 <= x % 16 < 16);
    }
}

} // verus!
