//! Versioned hashes: the compact 32-byte reference to a commitment.

use crate::model::sha256_of;
use vstd::prelude::*;

verus! {

/// The version tag that a versioned hash carries in its first byte.
pub const VERSIONED_HASH_VERSION_KZG: u8 = 0x01;

/// Relies on sha2::Sha256::digest: the 32-byte SHA-256 digest of the input,
/// a function of the input bytes alone.
#[verifier::external_body]
fn sha256(data: &[u8]) -> (r: [u8; 32])
    ensures
        r@ == sha256_of(data@),
{
    <sha2::Sha256 as sha2::Digest>::digest(data).into()
}

/// Derives the versioned hash of a commitment: the SHA-256 digest of the
/// 48 commitment bytes, with the first byte overwritten by the version tag.
pub fn commitment_to_version_hash(commitment: &[u8; 48]) -> (r: [u8; 32])
    ensures
        r@[0] == VERSIONED_HASH_VERSION_KZG,
        forall|i: int| 1 <= i < 32 ==> r@[i] == sha256_of(commitment@)[i],
{
    let mut out = sha256(commitment.as_slice());
    out[0] = VERSIONED_HASH_VERSION_KZG;
    out
}

} // verus!
