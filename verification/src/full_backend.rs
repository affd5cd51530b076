//! The full backend: commitment, proof and verification primitives.
//!
//! This backend drives the reference implementation of the commitment
//! scheme, which carries the Ethereum mainnet trusted setup embedded in its
//! own binary and caches it once per process on first use — no filesystem
//! or network access happens at call time. Each wrapper obtains that shared
//! setup and makes one primitive call; everything around the calls is
//! verified code.

use crate::model::commitment_of;
use crate::model::g1_bytes_valid;
use crate::model::proof_accepts;
use crate::model::proof_of;
use crate::codec::valid_blob;
use vstd::prelude::*;

verus! {

/// Relies on c_kzg::KzgSettings::blob_to_kzg_commitment, called on the
/// embedded mainnet setup (c_kzg::ethereum_kzg_settings): on a valid blob it
/// succeeds and returns the scheme's commitment, a valid compressed G1
/// encoding — blob length and chunk canonicality are the only inputs its
/// validation inspects, and its sole other exit is allocation failure. On a
/// blob of wrong length or with a non-canonical chunk it reports an error.
#[verifier::external_body]
pub(crate) fn ckzg_blob_to_commitment(blob: &[u8]) -> (r: Result<[u8; 48], String>)
    ensures
        r is Ok <==> valid_blob(blob@),
        r matches Ok(c) ==> c@ == commitment_of(blob@) && g1_bytes_valid(c@),
{
    let settings = c_kzg::ethereum_kzg_settings(0);
    let blob = match c_kzg::Blob::from_bytes(blob) {
        Ok(b) => b,
        Err(e) => return Err(format!("{e}")),
    };
    match settings.blob_to_kzg_commitment(&blob) {
        Ok(c) => Ok(c.to_bytes().into_inner()),
        Err(e) => Err(format!("{e}")),
    }
}

/// Relies on c_kzg::KzgSettings::compute_blob_kzg_proof, called on the
/// embedded mainnet setup: on a valid blob and a decodable commitment it
/// succeeds — those two checks are all its validation inspects, and its
/// sole other exit is allocation failure — and returns the scheme's opening
/// proof, a valid compressed G1 encoding, which passes the scheme's
/// verification predicate when the commitment is the one computed from the
/// blob. On a bad blob or a non-decodable commitment it reports an error.
#[verifier::external_body]
pub(crate) fn ckzg_compute_blob_kzg_proof(blob: &[u8], commitment: &[u8; 48]) -> (r: Result<
    [u8; 48],
    String,
>)
    ensures
        r is Ok <==> (valid_blob(blob@) && g1_bytes_valid(commitment@)),
        r matches Ok(p) ==> p@ == proof_of(blob@, commitment@) && g1_bytes_valid(p@),
        r matches Ok(p) ==> (commitment@ == commitment_of(blob@) ==> proof_accepts(
            blob@,
            commitment@,
            p@,
        )),
{
    let settings = c_kzg::ethereum_kzg_settings(0);
    let blob = match c_kzg::Blob::from_bytes(blob) {
        Ok(b) => b,
        Err(e) => return Err(format!("{e}")),
    };
    let c = c_kzg::Bytes48::new(*commitment);
    match settings.compute_blob_kzg_proof(&blob, &c) {
        Ok(p) => Ok(p.to_bytes().into_inner()),
        Err(e) => Err(format!("{e}")),
    }
}

/// Relies on c_kzg::KzgSettings::verify_blob_kzg_proof, called on the
/// embedded mainnet setup: on a valid blob and decodable commitment and
/// proof it succeeds — those three checks are all its validation inspects,
/// and its sole other exit is allocation failure — and returns the value of
/// the scheme's verification predicate, which accepts the honestly computed
/// commitment and proof of the blob. On any malformed input it reports an
/// error.
#[verifier::external_body]
pub(crate) fn ckzg_verify_blob_kzg_proof(
    blob: &[u8],
    commitment: &[u8; 48],
    proof: &[u8; 48],
) -> (r: Result<bool, String>)
    ensures
        r is Ok <==> (valid_blob(blob@) && g1_bytes_valid(commitment@) && g1_bytes_valid(
            proof@,
        )),
        r matches Ok(v) ==> v == proof_accepts(blob@, commitment@, proof@),
        r matches Ok(v) ==> ((valid_blob(blob@) && commitment@ == commitment_of(blob@)
            && proof@ == proof_of(blob@, commitment@)) ==> v),
{
    let settings = c_kzg::ethereum_kzg_settings(0);
    let blob = match c_kzg::Blob::from_bytes(blob) {
        Ok(b) => b,
        Err(e) => return Err(format!("{e}")),
    };
    let c = c_kzg::Bytes48::new(*commitment);
    let p = c_kzg::Bytes48::new(*proof);
    match settings.verify_blob_kzg_proof(&blob, &c, &p) {
        Ok(v) => Ok(v),
        Err(e) => Err(format!("{e}")),
    }
}

/// The full backend: implements all three operations natively.
pub struct CKzg;

impl crate::traits::KzgImplementation for CKzg {
    fn blob_to_commitment(&self, blob: &[u8]) -> (r: crate::RaikoResult<
        crate::KzgCommitmentBytes,
    >) {
        crate::blob_to_commitment(blob)
    }

    fn blob_to_proof(&self, blob: &[u8], commitment: &crate::KzgCommitmentBytes) -> (r:
        crate::RaikoResult<crate::KzgCommitmentBytes>) {
        crate::blob_to_proof(blob, commitment)
    }

    fn verify_blob_kzg_proof(
        &self,
        blob: &[u8],
        commitment: &crate::KzgCommitmentBytes,
        proof: &crate::KzgCommitmentBytes,
    ) -> (r: crate::RaikoResult<()>) {
        crate::verify_blob_kzg_proof(blob, commitment, proof)
    }
}

} // verus!
