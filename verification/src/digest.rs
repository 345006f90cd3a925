//! Checksum strings: the SHA-256 digest of a byte string, written as
//! `sha256:` followed by the digest in lowercase hexadecimal.

use sha2::Digest;
use vstd::prelude::*;

verus! {

/// The SHA-256 digest of `data`, as FIPS 180-4 defines it.
///
/// The function is left uninterpreted: the only thing known of it is that
/// [`sha256_digest`] computes it.
pub uninterp spec fn sha256(data: Seq<u8>) -> Seq<u8>;

/// The sixteen lowercase hexadecimal digits, in order.
pub open spec fn hex_digits() -> Seq<char> {
    seq!['0', '1', '2', '3', '4', '5', '6', '7', '8', '9', 'a', 'b', 'c', 'd', 'e', 'f']
}

/// Lowercase hexadecimal encoding: two digits per byte, high nibble first.
pub open spec fn hex_encode(bytes: Seq<u8>) -> Seq<char> {
    Seq::new(
        2 * bytes.len(),
        |i: int|
            if i % 2 == 0 {
                hex_digits()[bytes[i / 2] as int / 16]
            } else {
                hex_digits()[bytes[i / 2] as int % 16]
            },
    )
}

/// The prefix that names the algorithm of a checksum string.
pub open spec fn algorithm_prefix() -> Seq<char> {
    "sha256:"@
}

/// The checksum string that stands for a digest.
pub open spec fn checksum_of_digest(digest: Seq<u8>) -> Seq<char> {
    algorithm_prefix() + hex_encode(digest)
}

/// The checksum string of a file's contents.
pub open spec fn checksum_text(data: Seq<u8>) -> Seq<char> {
    checksum_of_digest(sha256(data))
}

/// Trusted: calls `sha2::Sha256::digest` (the `Digest` trait's one-shot
/// function), which feeds `data` to a fresh hasher and finalizes it, and
/// copies the 32-byte output array into a vector. The contract only names the
/// result.
#[verifier::external_body]
pub(crate) fn sha256_digest(data: &[u8]) -> (out: Vec<u8>)
    ensures
        out@ == sha256(data@),
{
    sha2::Sha256::digest(data).to_vec()
}

/// Trusted: calls `hex::encode`, which maps every byte to two characters taken
/// from the table `0123456789abcdef`, the high nibble first.
#[verifier::external_body]
pub(crate) fn hex_string(bytes: &[u8]) -> (out: String)
    ensures
        out@ == hex_encode(bytes@),
{
    hex::encode(bytes)
}

/// Formats a digest as a checksum string.
pub fn format_digest(digest: &[u8]) -> (text: String)
    ensures
        text@ == checksum_of_digest(digest@),
{
    let hex = hex_string(digest);
    let mut text = String::from_str("sha256:");
    text.append(hex.as_str());
    text
}

/// Computes the checksum string of `data`.
pub fn checksum(data: &[u8]) -> (text: String)
    ensures
        text@ == checksum_text(data@),
{
    let digest = sha256_digest(data);
    format_digest(digest.as_slice())
}

} // verus!
