//! The verification-only backend.
//!
//! This backend carries a lighter, verification-optimized implementation of
//! the scheme with its own copy of the embedded mainnet trusted setup: its
//! point tables are compiled in and materialized once per process, and the
//! settings value handed to each call is a cheap bundle of references to
//! them. It has no native support for computing commitments or proofs, so
//! it delegates those two operations to the full backend; verification runs
//! through its own primitive.

use crate::KzgCommitmentBytes;
use crate::codec::valid_blob;
use crate::errors::RaikoError;
use crate::errors::RaikoResult;
use crate::model::commitment_of;
use crate::model::g1_bytes_valid;
use crate::model::proof_accepts;
use crate::model::proof_of;
use crate::points::g1_check;
use crate::traits::KzgImplementation;
use crate::validate_blob;
use vstd::prelude::*;

verus! {

/// Relies on kzg_rs::KzgProof::verify_blob_kzg_proof, called on that
/// crate's embedded mainnet setup (kzg_rs::get_kzg_settings, whose point
/// tables are compiled in and materialized once per process): on a valid
/// blob and decodable commitment and proof it succeeds — point decoding and
/// chunk canonicality are its only failure paths — and returns the value of
/// the EIP-4844 verification predicate; on any malformed input it reports
/// an error. The predicate is the same one the full backend decides — both
/// implement the standard over the same setup, and kzg_rs is validated
/// against the reference implementation's test vectors — so its result is
/// stated over the same name.
#[verifier::external_body]
pub(crate) fn kzg_rs_verify_blob_kzg_proof(
    blob: &[u8],
    commitment: &[u8; 48],
    proof: &[u8; 48],
) -> (r: Result<bool, String>)
    ensures
        r is Ok <==> (valid_blob(blob@) && g1_bytes_valid(commitment@) && g1_bytes_valid(
            proof@,
        )),
        r matches Ok(v) ==> v == proof_accepts(blob@, commitment@, proof@),
        r matches Ok(v) ==> ((valid_blob(blob@) && commitment@ == commitment_of(blob@) && proof@
            == proof_of(blob@, commitment@)) ==> v),
{
    let settings = kzg_rs::get_kzg_settings();
    let blob = match kzg_rs::Blob::from_slice(blob) {
        Ok(b) => b,
        Err(e) => return Err(format!("{e}")),
    };
    let c = kzg_rs::Bytes48(*commitment);
    let p = kzg_rs::Bytes48(*proof);
    match kzg_rs::KzgProof::verify_blob_kzg_proof(blob, &c, &p, &settings) {
        Ok(v) => Ok(v),
        Err(e) => Err(format!("{e}")),
    }
}

/// The verification-only backend. Commitments and proofs are delegated to
/// the full backend; verification uses its own primitive.
pub struct KzgRs;

impl KzgImplementation for KzgRs {
    /// Delegated to the full backend, which computes the same commitment.
    fn blob_to_commitment(&self, blob: &[u8]) -> (r: RaikoResult<KzgCommitmentBytes>) {
        crate::blob_to_commitment(blob)
    }

    /// Delegated to the full backend, which computes the same proof.
    fn blob_to_proof(&self, blob: &[u8], commitment: &KzgCommitmentBytes) -> (r: RaikoResult<
        KzgCommitmentBytes,
    >) {
        crate::blob_to_proof(blob, commitment)
    }

    fn verify_blob_kzg_proof(
        &self,
        blob: &[u8],
        commitment: &KzgCommitmentBytes,
        proof: &KzgCommitmentBytes,
    ) -> (r: RaikoResult<()>) {
        if !validate_blob(blob) {
            return Err(
                RaikoError::InvalidBlobData(
                    "blob has wrong length or a non-canonical field element".to_string(),
                ),
            );
        }
        if !g1_check(commitment) {
            return Err(
                RaikoError::InvalidCommitment(
                    "commitment is not a valid compressed curve point".to_string(),
                ),
            );
        }
        if !g1_check(proof) {
            return Err(
                RaikoError::InvalidProof("proof is not a valid compressed curve point".to_string()),
            );
        }
        match kzg_rs_verify_blob_kzg_proof(blob, commitment, proof) {
            Ok(true) => Ok(()),
            Ok(false) => Err(RaikoError::ProofInvalid("KZG proof verification failed".to_string())),
            Err(m) => Err(RaikoError::BackendComputationFailed(m)),
        }
    }
}

} // verus!
