//! The capability interface shared by the two backends.

use crate::KzgCommitmentBytes;
use crate::codec::valid_blob;
use crate::errors::RaikoError;
use crate::errors::RaikoResult;
use crate::model::commitment_of;
use crate::model::g1_bytes_valid;
use crate::model::proof_accepts;
use crate::model::proof_of;
use crate::model::well_formed_triple;
use vstd::prelude::*;

verus! {

/// A KZG implementation: commitment, opening proof, and verification over
/// the embedded Ethereum mainnet trusted setup.
///
/// Every implementation is held to the same contract, stated over the same
/// names: for one blob, every implementation computes the same commitment
/// and proof bytes and decides verification by the same predicate. This is
/// the cross-implementation agreement that lets backends be swapped without
/// changing callers.
pub trait KzgImplementation {
    /// Computes the KZG commitment of a blob: every valid blob succeeds,
    /// every other blob is rejected.
    fn blob_to_commitment(&self, blob: &[u8]) -> (r: RaikoResult<KzgCommitmentBytes>)
        ensures
            r is Ok <==> valid_blob(blob@),
            (r matches Err(RaikoError::InvalidBlobData(_))) <==> !valid_blob(blob@),
            r matches Ok(c) ==> c@ == commitment_of(blob@) && g1_bytes_valid(c@),
    ;

    /// Computes the KZG opening proof for a blob and its commitment. The
    /// commitment is trusted to correspond to the blob and is not
    /// cross-checked against it.
    fn blob_to_proof(&self, blob: &[u8], commitment: &KzgCommitmentBytes) -> (r: RaikoResult<
        KzgCommitmentBytes,
    >)
        ensures
            r is Ok <==> valid_blob(blob@) && g1_bytes_valid(commitment@),
            (r matches Err(RaikoError::InvalidBlobData(_))) <==> !valid_blob(blob@),
            (r matches Err(RaikoError::InvalidCommitment(_))) <==> (valid_blob(blob@)
                && !g1_bytes_valid(commitment@)),
            r matches Ok(p) ==> p@ == proof_of(blob@, commitment@) && g1_bytes_valid(p@),
            r matches Ok(p) ==> (commitment@ == commitment_of(blob@) ==> proof_accepts(
                blob@,
                commitment@,
                p@,
            )),
    ;

    /// Verifies that a (blob, commitment, proof) triple is consistent.
    fn verify_blob_kzg_proof(
        &self,
        blob: &[u8],
        commitment: &KzgCommitmentBytes,
        proof: &KzgCommitmentBytes,
    ) -> (r: RaikoResult<()>)
        ensures
            r is Ok <==> (well_formed_triple(blob@, commitment@, proof@) && proof_accepts(
                blob@,
                commitment@,
                proof@,
            )),
            (r matches Err(RaikoError::ProofInvalid(_))) <==> (well_formed_triple(
                blob@,
                commitment@,
                proof@,
            ) && !proof_accepts(blob@, commitment@, proof@)),
            (r matches Err(RaikoError::InvalidBlobData(_))) <==> !valid_blob(blob@),
            (r matches Err(RaikoError::InvalidCommitment(_))) <==> (valid_blob(blob@)
                && !g1_bytes_valid(commitment@)),
            (r matches Err(RaikoError::InvalidProof(_))) <==> (valid_blob(blob@) && g1_bytes_valid(
                commitment@,
            ) && !g1_bytes_valid(proof@)),
            valid_blob(blob@) && commitment@ == commitment_of(blob@) && proof@ == proof_of(
                blob@,
                commitment@,
            ) ==> !(r matches Err(RaikoError::ProofInvalid(_))),
            well_formed_triple(blob@, commitment@, proof@) && commitment@ == commitment_of(blob@)
                && proof@ == proof_of(blob@, commitment@) ==> r is Ok,
    ;
}

} // verus!
