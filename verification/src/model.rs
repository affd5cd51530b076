//! Names for the results of the cryptographic primitives.
//!
//! The commitment scheme itself (curve and pairing arithmetic) is an opaque
//! external capability. Its results are deterministic functions of the
//! bytes handed to it — the trusted setup is a fixed resource embedded in
//! the backends — so each result is given a name here, and the contracts of
//! this crate speak of those names. The trusted wrappers in the backend
//! modules are the only places that relate a name to the outside code.

use vstd::prelude::*;

verus! {

/// The 48-byte commitment that the commitment scheme assigns to a blob
/// under the embedded Ethereum mainnet trusted setup.
pub uninterp spec fn commitment_of(blob: Seq<u8>) -> Seq<u8>;

/// The 48-byte opening proof that the commitment scheme assigns to a blob
/// and a caller-supplied commitment under the embedded trusted setup.
pub uninterp spec fn proof_of(blob: Seq<u8>, commitment: Seq<u8>) -> Seq<u8>;

/// The verification predicate of the commitment scheme: whether the proof
/// opens the commitment for this blob under the embedded trusted setup.
pub uninterp spec fn proof_accepts(blob: Seq<u8>, commitment: Seq<u8>, proof: Seq<u8>) -> bool;

/// Whether 48 bytes are a valid compressed encoding of a BLS12-381 G1
/// group element (the wire format of commitments and proofs).
pub uninterp spec fn g1_bytes_valid(bytes: Seq<u8>) -> bool;

/// The 32-byte SHA-256 digest of a byte sequence.
pub uninterp spec fn sha256_of(data: Seq<u8>) -> Seq<u8>;

/// A (blob, commitment, proof) triple is well-formed when the blob is valid
/// and both 48-byte values are valid compressed G1 encodings. On exactly the
/// well-formed triples, verification answers the cryptographic predicate.
pub open spec fn well_formed_triple(blob: Seq<u8>, commitment: Seq<u8>, proof: Seq<u8>) -> bool {
    crate::codec::valid_blob(blob) && g1_bytes_valid(commitment) && g1_bytes_valid(proof)
}

} // verus!
