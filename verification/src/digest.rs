//! One-way digest of secret material, rendered as lowercase hexadecimal.

use vstd::prelude::*;

verus! {

/// Number of bytes in a SHA-256 hash.
pub const SHA256_LEN: usize = 32;

/// Number of characters in a digest: two per hashed byte.
pub const DIGEST_LEN: usize = 64;

/// The SHA-256 hash of `data`, as the `sha2` crate computes it.
pub uninterp spec fn sha256(data: Seq<u8>) -> Seq<u8>;

/// The lowercase hexadecimal digit of a value below sixteen.
pub open spec fn hex_digit(nibble: int) -> char {
    seq!['0', '1', '2', '3', '4', '5', '6', '7', '8', '9', 'a', 'b', 'c', 'd', 'e', 'f'][nibble]
}

/// Lowercase hexadecimal of `bytes`: two digits per byte, the high half first.
pub open spec fn hex_lower(bytes: Seq<u8>) -> Seq<char> {
    Seq::new(
        2 * bytes.len(),
        |i: int|
            if i % 2 == 0 {
                hex_digit(bytes[i / 2] as int / 16)
            } else {
                hex_digit(bytes[i / 2] as int % 16)
            },
    )
}

/// The digest of `secret`: its SHA-256 hash in lowercase hexadecimal.
pub open spec fn digest_of(secret: Seq<u8>) -> Seq<char> {
    hex_lower(sha256(secret))
}

/// Calls `sha2::Sha256::digest`. Trusted: the result is the SHA-256 hash of
/// `data`, which is always 32 bytes long.
#[verifier::external_body]
fn sha256_hash(data: &[u8]) -> (hash: Vec<u8>)
    ensures
        hash@ == sha256(data@),
        hash@.len() == SHA256_LEN,
{
    <sha2::Sha256 as sha2::Digest>::digest(data).to_vec()
}

/// Calls `hex::encode`. Trusted: the result holds two lowercase hexadecimal
/// digits for each byte of `data`, in order, the high half of a byte first.
#[verifier::external_body]
fn hex_encode(data: &[u8]) -> (text: String)
    ensures
        text@ == hex_lower(data@),
{
    hex::encode(data)
}

/// Computes the digest of `secret`.
///
/// The digest depends on the bytes of `secret` alone, so the same secret gives
/// the same digest in every process, and it is always 64 characters long.
pub fn digest(secret: &[u8]) -> (text: String)
    ensures
        text@ == digest_of(secret@),
        text@.len() == DIGEST_LEN,
{
    let hash = sha256_hash(secret);
    hex_encode(hash.as_slice())
}

} // verus!
