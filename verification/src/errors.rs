//! The single error surface of the crate.
//!
//! Every public operation reports failure through [`RaikoError`], a closed
//! enumeration of the ways a KZG operation can go wrong. Each variant carries
//! a human-readable cause.

use vstd::prelude::*;

verus! {

/// The error type shared by every KZG operation of this crate.
#[derive(Debug, Clone)]
pub enum RaikoError {
    /// The trusted-setup parameters could not be initialized. Reserved for
    /// backends whose setup load can fail: the built-in backends compile
    /// their setup tables into the binary and never produce this kind.
    SettingsInitFailed(String),
    /// The blob has the wrong length, or a 32-byte chunk is not a canonical
    /// field element (its big-endian value is not below the scalar modulus).
    InvalidBlobData(String),
    /// The 48-byte commitment is not a valid compressed curve-point encoding.
    InvalidCommitment(String),
    /// The 48-byte proof is not a valid compressed curve-point encoding.
    InvalidProof(String),
    /// All inputs are well-formed but the cryptographic predicate rejected
    /// the (blob, commitment, proof) triple.
    ProofInvalid(String),
    /// The backend primitive reported an internal failure.
    BackendComputationFailed(String),
}

impl RaikoError {
    /// A short, stable name for the error kind, independent of the cause text.
    pub fn kind_name(&self) -> (r: &'static str)
        ensures
            (self matches RaikoError::SettingsInitFailed(_)) ==> r@ == "settings init failed"@,
            (self matches RaikoError::InvalidBlobData(_)) ==> r@ == "invalid blob data"@,
            (self matches RaikoError::InvalidCommitment(_)) ==> r@ == "invalid commitment"@,
            (self matches RaikoError::InvalidProof(_)) ==> r@ == "invalid proof"@,
            (self matches RaikoError::ProofInvalid(_)) ==> r@ == "proof invalid"@,
            (self matches RaikoError::BackendComputationFailed(_)) ==> r@
                == "backend computation failed"@,
    {
        match self {
            RaikoError::SettingsInitFailed(_) => "settings init failed",
            RaikoError::InvalidBlobData(_) => "invalid blob data",
            RaikoError::InvalidCommitment(_) => "invalid commitment",
            RaikoError::InvalidProof(_) => "invalid proof",
            RaikoError::ProofInvalid(_) => "proof invalid",
            RaikoError::BackendComputationFailed(_) => "backend computation failed",
        }
    }

    /// The carried cause text.
    pub fn detail(&self) -> (r: &String)
        ensures
            self matches RaikoError::SettingsInitFailed(m) ==> r == m,
            self matches RaikoError::InvalidBlobData(m) ==> r == m,
            self matches RaikoError::InvalidCommitment(m) ==> r == m,
            self matches RaikoError::InvalidProof(m) ==> r == m,
            self matches RaikoError::ProofInvalid(m) ==> r == m,
            self matches RaikoError::BackendComputationFailed(m) ==> r == m,
    {
        match self {
            RaikoError::SettingsInitFailed(m) => m,
            RaikoError::InvalidBlobData(m) => m,
            RaikoError::InvalidCommitment(m) => m,
            RaikoError::InvalidProof(m) => m,
            RaikoError::ProofInvalid(m) => m,
            RaikoError::BackendComputationFailed(m) => m,
        }
    }
}

/// The result type shared by every KZG operation of this crate.
pub type RaikoResult<T> = Result<T, RaikoError>;

} // verus!
