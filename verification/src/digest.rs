use vstd::prelude::*;

use sha2::Digest;

verus! {

/// The SHA-256 digest of a byte string.
pub uninterp spec fn sha256(data: Seq<u8>) -> Seq<u8>;

/// The BLAKE3 (default, 32-byte) hash of a byte string.
pub uninterp spec fn blake3_hash(data: Seq<u8>) -> Seq<u8>;

/// Calls `sha2::Sha256::digest`: the result is named `sha256` of the input and,
/// as for every SHA-256 digest, is 32 bytes long.
#[verifier::external_body]
pub(crate) fn sha256_digest(data: &[u8]) -> (r: Vec<u8>)
    ensures
        r@ == sha256(data@),
        r@.len() == 32,
{
    sha2::Sha256::digest(data).to_vec()
}

/// Calls `blake3::hash`: the result is named `blake3_hash` of the input and is
/// 32 bytes long (`blake3::OUT_LEN`).
#[verifier::external_body]
pub(crate) fn blake3_digest(data: &[u8]) -> (r: Vec<u8>)
    ensures
        r@ == blake3_hash(data@),
        r@.len() == 32,
{
    blake3::hash(data).as_bytes().to_vec()
}

/// The little-endian value of the first eight bytes of `b`.
pub open spec fn le_u64(b: Seq<u8>) -> u64
    recommends
        b.len() >= 8,
{
    (b[0] as u64) | ((b[1] as u64) << 8u64) | ((b[2] as u64) << 16u64) | ((b[3] as u64) << 24u64) | ((
    b[4] as u64) << 32u64) | ((b[5] as u64) << 40u64) | ((b[6] as u64) << 48u64) | ((b[7] as u64)
        << 56u64)
}

/// The little-endian value of the first eight bytes of `b`.
pub fn read_le_u64(b: &Vec<u8>) -> (r: u64)
    requires
        b@.len() >= 8,
    ensures
        r == le_u64(b@),
{
    (b[0] as u64) | ((b[1] as u64) << 8u64) | ((b[2] as u64) << 16u64) | ((b[3] as u64) << 24u64) | ((
    b[4] as u64) << 32u64) | ((b[5] as u64) << 40u64) | ((b[6] as u64) << 48u64) | ((b[7] as u64)
        << 56u64)
}

} // verus!
