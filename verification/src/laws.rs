//! Laws of the commitment engine that hold by its contracts.

use crate::model::commitment_of;
use crate::model::proof_of;
use vstd::prelude::*;

verus! {

/// Determinism of commitments: any two commitment results computed from the
/// same blob bytes — by either backend, in any call — are byte-identical,
/// because every successful commitment equals `commitment_of` of the blob.
pub proof fn lemma_commitment_deterministic(blob: Seq<u8>, c1: Seq<u8>, c2: Seq<u8>)
    requires
        c1 == commitment_of(blob),
        c2 == commitment_of(blob),
    ensures
        c1 == c2,
{
}

/// Determinism of proofs: any two proof results computed from the same blob
/// and commitment bytes are byte-identical, because every successful proof
/// equals `proof_of` of the pair.
pub proof fn lemma_proof_deterministic(
    blob: Seq<u8>,
    commitment: Seq<u8>,
    p1: Seq<u8>,
    p2: Seq<u8>,
)
    requires
        p1 == proof_of(blob, commitment),
        p2 == proof_of(blob, commitment),
    ensures
        p1 == p2,
{
}

} // verus!
