//! Polynomial commitments over fixed-size data blobs.
//!
//! A blob of 131072 bytes is summarized by a 48-byte commitment; a 48-byte
//! opening proof attests that a commitment corresponds to a blob; a
//! versioned hash derives a compact 32-byte reference from a commitment.
//! Blob validation is carried out in verified code; the curve and pairing
//! arithmetic is an opaque external capability reached through trusted
//! wrappers, available through two interchangeable backends: the full
//! backend [`CKzg`] drives the C reference implementation of the scheme
//! (c-kzg), and the verification-only backend [`KzgRs`] drives a lighter
//! pure-Rust verifier (kzg-rs), delegating commitment and proof computation
//! to the full backend. Both carry the Ethereum mainnet trusted setup
//! compiled into their own binaries.

use vstd::prelude::*;

mod codec;
mod errors;
mod full_backend;
mod hash;
mod laws;
mod lite_backend;
mod model;
mod points;
mod traits;

pub use codec::BYTES_PER_BLOB;
pub use codec::BYTES_PER_FIELD_ELEMENT;
pub use codec::FIELD_ELEMENTS_PER_BLOB;
pub use codec::bls_modulus;
pub use codec::chunk_canonical;
pub use codec::chunk_value;
pub use codec::valid_blob;
pub use codec::validate_blob;
pub use errors::RaikoError;
pub use errors::RaikoResult;
pub use full_backend::CKzg;
pub use lite_backend::KzgRs;
pub use traits::KzgImplementation;
pub use hash::VERSIONED_HASH_VERSION_KZG;
pub use hash::commitment_to_version_hash;
pub use laws::lemma_commitment_deterministic;
pub use laws::lemma_proof_deterministic;
pub use model::commitment_of;
pub use model::g1_bytes_valid;
pub use model::proof_accepts;
pub use model::proof_of;
pub use model::sha256_of;
pub use model::well_formed_triple;

use crate::full_backend::ckzg_blob_to_commitment;
use crate::full_backend::ckzg_compute_blob_kzg_proof;
use crate::full_backend::ckzg_verify_blob_kzg_proof;
use crate::points::g1_check;

verus! {

/// A serialized field element: 32 bytes.
pub type KzgField = [u8; 32];

/// A serialized commitment or proof: a 48-byte compressed curve point.
pub type KzgCommitmentBytes = [u8; 48];

/// Computes the KZG commitment of a blob.
///
/// The blob must hold exactly [`BYTES_PER_BLOB`] bytes, each 32-byte chunk a
/// canonical field element; any other blob is rejected with
/// [`RaikoError::InvalidBlobData`], and every valid blob succeeds.
/// Identical blobs always yield identical commitment bytes.
pub fn blob_to_commitment(blob: &[u8]) -> (r: RaikoResult<KzgCommitmentBytes>)
    ensures
        r is Ok <==> valid_blob(blob@),
        (r matches Err(RaikoError::InvalidBlobData(_))) <==> !valid_blob(blob@),
        r matches Ok(c) ==> c@ == commitment_of(blob@) && g1_bytes_valid(c@),
{
    if !validate_blob(blob) {
        return Err(
            RaikoError::InvalidBlobData(
                "blob has wrong length or a non-canonical field element".to_string(),
            ),
        );
    }
    match ckzg_blob_to_commitment(blob) {
        Ok(c) => Ok(c),
        Err(m) => Err(RaikoError::BackendComputationFailed(m)),
    }
}

/// Computes the KZG opening proof for a blob and its commitment.
///
/// The caller-supplied commitment is trusted to correspond to the blob; it
/// is only checked to be a decodable curve point, not recomputed or
/// cross-checked. Passing a commitment computed from different data is not
/// rejected here — it yields a proof that fails downstream verification.
/// This trade-off is deliberate and part of the contract. Every valid blob
/// with a decodable commitment succeeds.
pub fn blob_to_proof(blob: &[u8], commitment: &KzgCommitmentBytes) -> (r: RaikoResult<
    KzgCommitmentBytes,
>)
    ensures
        r is Ok <==> valid_blob(blob@) && g1_bytes_valid(commitment@),
        (r matches Err(RaikoError::InvalidBlobData(_))) <==> !valid_blob(blob@),
        (r matches Err(RaikoError::InvalidCommitment(_))) <==> (valid_blob(blob@)
            && !g1_bytes_valid(commitment@)),
        r matches Ok(p) ==> p@ == proof_of(blob@, commitment@) && g1_bytes_valid(p@),
        r matches Ok(p) ==> (commitment@ == commitment_of(blob@) ==> proof_accepts(
            blob@,
            commitment@,
            p@,
        )),
{
    if !validate_blob(blob) {
        return Err(
            RaikoError::InvalidBlobData(
                "blob has wrong length or a non-canonical field element".to_string(),
            ),
        );
    }
    if !g1_check(commitment) {
        return Err(
            RaikoError::InvalidCommitment(
                "commitment is not a valid compressed curve point".to_string(),
            ),
        );
    }
    match ckzg_compute_blob_kzg_proof(blob, commitment) {
        Ok(p) => Ok(p),
        Err(m) => Err(RaikoError::BackendComputationFailed(m)),
    }
}

/// Verifies that a (blob, commitment, proof) triple is consistent.
///
/// Malformed inputs are reported with a kind naming the offending input.
/// On a well-formed triple the result is exactly the cryptographic
/// predicate: acceptance is `Ok`, rejection is
/// [`RaikoError::ProofInvalid`]. The honestly computed commitment and proof
/// of a valid blob are accepted.
pub fn verify_blob_kzg_proof(
    blob: &[u8],
    commitment: &KzgCommitmentBytes,
    proof: &KzgCommitmentBytes,
) -> (r: RaikoResult<()>)
    ensures
        r is Ok <==> (well_formed_triple(blob@, commitment@, proof@) && proof_accepts(
            blob@,
            commitment@,
            proof@,
        )),
        (r matches Err(RaikoError::ProofInvalid(_))) <==> (well_formed_triple(
            blob@,
            commitment@,
            proof@,
        ) && !proof_accepts(blob@, commitment@, proof@)),
        (r matches Err(RaikoError::InvalidBlobData(_))) <==> !valid_blob(blob@),
        (r matches Err(RaikoError::InvalidCommitment(_))) <==> (valid_blob(blob@)
            && !g1_bytes_valid(commitment@)),
        (r matches Err(RaikoError::InvalidProof(_))) <==> (valid_blob(blob@) && g1_bytes_valid(
            commitment@,
        ) && !g1_bytes_valid(proof@)),
        valid_blob(blob@) && commitment@ == commitment_of(blob@) && proof@ == proof_of(
            blob@,
            commitment@,
        ) ==> !(r matches Err(RaikoError::ProofInvalid(_))),
        well_formed_triple(blob@, commitment@, proof@) && commitment@ == commitment_of(blob@)
            && proof@ == proof_of(blob@, commitment@) ==> r is Ok,
{
    if !validate_blob(blob) {
        return Err(
            RaikoError::InvalidBlobData(
                "blob has wrong length or a non-canonical field element".to_string(),
            ),
        );
    }
    if !g1_check(commitment) {
        return Err(
            RaikoError::InvalidCommitment(
                "commitment is not a valid compressed curve point".to_string(),
            ),
        );
    }
    if !g1_check(proof) {
        return Err(
            RaikoError::InvalidProof("proof is not a valid compressed curve point".to_string()),
        );
    }
    match ckzg_verify_blob_kzg_proof(blob, commitment, proof) {
        Ok(true) => Ok(()),
        Ok(false) => Err(RaikoError::ProofInvalid("KZG proof verification failed".to_string())),
        Err(m) => Err(RaikoError::BackendComputationFailed(m)),
    }
}

/// Verifies a (blob, commitment, proof) triple and reports the outcome as a
/// boolean, treating every failure as rejection: the answer is true exactly
/// when the triple is well-formed and the cryptographic predicate accepts
/// it.
pub fn verify_kzg_proof(
    blob: &[u8],
    commitment: &KzgCommitmentBytes,
    proof: &KzgCommitmentBytes,
) -> (r: bool)
    ensures
        r == (well_formed_triple(blob@, commitment@, proof@) && proof_accepts(
            blob@,
            commitment@,
            proof@,
        )),
{
    match verify_blob_kzg_proof(blob, commitment, proof) {
        Ok(_) => true,
        Err(_) => false,
    }
}

} // verus!
