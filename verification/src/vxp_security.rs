//! Package integrity: SHA-256 checksums rendered as lowercase hex.
//!
//! The digest itself comes from the `sha2` crate and the rendering from
//! `hex`; the comparison logic around them is verified.  Reading package
//! files from disk happens outside the library, which works on the bytes.

use vstd::prelude::*;

use sha2::Digest;

verus! {

/// The SHA-256 digest of a byte string.  Computed by the `sha2` crate; a
/// function of the bytes alone.
pub uninterp spec fn spec_sha256(data: Seq<u8>) -> Seq<u8>;

/// One lowercase hex digit for a value below 16.
pub open spec fn spec_hex_digit(n: u8) -> char {
    if n < 10 {
        (((n + 48) as u8) as char)  // '0' to '9'
    } else {
        (((n + 87) as u8) as char)  // 'a' to 'f'
    }
}

/// Lowercase hex rendering: two digits per byte, high nibble first.
pub open spec fn spec_hex(data: Seq<u8>) -> Seq<char> {
    Seq::new(
        data.len() * 2,
        |i: int|
            if i % 2 == 0 {
                spec_hex_digit((data[i / 2] / 16) as u8)
            } else {
                spec_hex_digit((data[i / 2] % 16) as u8)
            },
    )
}

/// The checksum the package tools exchange: lowercase hex of the SHA-256
/// digest of the contents.
pub open spec fn spec_checksum(data: Seq<u8>) -> Seq<char> {
    spec_hex(spec_sha256(data))
}

/// Relies on sha2::Sha256::digest: the SHA-256 digest of the input, which
/// is 32 bytes long and depends on the input bytes alone.
#[verifier::external_body]
fn sha256_digest(data: &[u8]) -> (r: Vec<u8>)
    ensures
        r@ == spec_sha256(data@),
        r@.len() == 32,
{
    sha2::Sha256::digest(data).to_vec()
}

/// Relies on hex::encode: lowercase hex, two digits per byte, high nibble
/// first.
#[verifier::external_body]
fn hex_encode(data: &[u8]) -> (r: String)
    ensures
        r@ == spec_hex(data@),
{
    hex::encode(data)
}

/// The SHA-256 checksum of the given contents, as a lowercase hex string.
pub fn calculate_checksum(data: &Vec<u8>) -> (r: String)
    ensures
        r@ == spec_checksum(data@),
        r@.len() == 64,
{
    let digest = sha256_digest(data.as_slice());
    hex_encode(digest.as_slice())
}

/// Whether the contents hash to the expected checksum string.
pub fn verify_checksum(data: &Vec<u8>, expected_checksum: &String) -> (r: bool)
    ensures
        r == (spec_checksum(data@) == expected_checksum@),
{
    let calculated = calculate_checksum(data);
    calculated.eq(expected_checksum)
}

} // verus!
