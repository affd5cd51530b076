//! Wire-format validation of curve points.
//!
//! Commitments and proofs travel as 48-byte compressed G1 encodings. Whether
//! such an encoding decodes to a group element is decided by the curve
//! library; the result is named [`crate::model::g1_bytes_valid`].

use crate::model::g1_bytes_valid;
use vstd::prelude::*;

verus! {

/// Relies on bls12_381::G1Affine::from_compressed: it returns a point
/// exactly when the 48 bytes are a valid compressed encoding of a G1 group
/// element (on the curve, in the subgroup, canonical flags), and a failure
/// otherwise. The result depends on the bytes alone.
#[verifier::external_body]
pub(crate) fn g1_check(bytes: &[u8; 48]) -> (r: bool)
    ensures
        r == g1_bytes_valid(bytes@),
{
    bool::from(bls12_381::G1Affine::from_compressed(bytes).is_some())
}

} // verus!
