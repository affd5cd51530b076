//! Blob validation: the verified byte-level codec.
//!
//! A blob is a fixed 131072-byte sequence, read as 4096 chunks of 32 bytes.
//! Each chunk, taken as a big-endian integer, must lie strictly below the
//! BLS12-381 scalar-field modulus. Both backends reject exactly the blobs
//! that this module rejects; the check itself is carried out here in
//! verified code.

use vstd::prelude::*;

verus! {

/// Number of bytes in a blob.
pub const BYTES_PER_BLOB: usize = 131072;

/// Number of bytes in one serialized field element.
pub const BYTES_PER_FIELD_ELEMENT: usize = 32;

/// Number of field elements in a blob.
pub const FIELD_ELEMENTS_PER_BLOB: usize = 4096;

/// The BLS12-381 scalar-field modulus: a chunk is a canonical field element
/// exactly when its big-endian value is strictly below this number.
pub open spec fn bls_modulus() -> int {
    0x73eda753299d7d483339d80809a1d80553bda402fffe5bfeffffffff00000001int
}

/// The big-endian integer value of a 32-byte chunk.
pub open spec fn chunk_value(c: Seq<u8>) -> int
    recommends
        c.len() == BYTES_PER_FIELD_ELEMENT,
{
    c[0] * 0x100000000000000000000000000000000000000000000000000000000000000int
        + c[1] * 0x1000000000000000000000000000000000000000000000000000000000000int
        + c[2] * 0x10000000000000000000000000000000000000000000000000000000000int
        + c[3] * 0x100000000000000000000000000000000000000000000000000000000int
        + c[4] * 0x1000000000000000000000000000000000000000000000000000000int
        + c[5] * 0x10000000000000000000000000000000000000000000000000000int
        + c[6] * 0x100000000000000000000000000000000000000000000000000int
        + c[7] * 0x1000000000000000000000000000000000000000000000000int
        + c[8] * 0x10000000000000000000000000000000000000000000000int
        + c[9] * 0x100000000000000000000000000000000000000000000int
        + c[10] * 0x1000000000000000000000000000000000000000000int
        + c[11] * 0x10000000000000000000000000000000000000000int
        + c[12] * 0x100000000000000000000000000000000000000int
        + c[13] * 0x1000000000000000000000000000000000000int
        + c[14] * 0x10000000000000000000000000000000000int
        + c[15] * 0x100000000000000000000000000000000int
        + c[16] * 0x1000000000000000000000000000000int
        + c[17] * 0x10000000000000000000000000000int
        + c[18] * 0x100000000000000000000000000int
        + c[19] * 0x1000000000000000000000000int
        + c[20] * 0x10000000000000000000000int
        + c[21] * 0x100000000000000000000int
        + c[22] * 0x1000000000000000000int
        + c[23] * 0x10000000000000000int
        + c[24] * 0x100000000000000int
        + c[25] * 0x1000000000000int
        + c[26] * 0x10000000000int
        + c[27] * 0x100000000int
        + c[28] * 0x1000000int
        + c[29] * 0x10000int
        + c[30] * 0x100int
        + c[31]
}

/// A 32-byte chunk is canonical when its big-endian value is strictly below
/// the scalar-field modulus.
pub open spec fn chunk_canonical(c: Seq<u8>) -> bool
    recommends
        c.len() == BYTES_PER_FIELD_ELEMENT,
{
    chunk_value(c) < bls_modulus()
}

/// A blob is valid when it has the exact blob length and every 32-byte chunk
/// is a canonical field element.
pub open spec fn valid_blob(b: Seq<u8>) -> bool {
    &&& b.len() == BYTES_PER_BLOB
    &&& forall|i: int|
        0 <= i < FIELD_ELEMENTS_PER_BLOB ==> chunk_canonical(
            #[trigger] b.subrange(32 * i, 32 * i + 32),
        )
}

/// Highest 64-bit limb of the scalar-field modulus.
const BLS_MODULUS_LIMB_3: u64 = 0x73eda753299d7d48;

/// Second-highest 64-bit limb of the scalar-field modulus.
const BLS_MODULUS_LIMB_2: u64 = 0x3339d80809a1d805;

/// Second-lowest 64-bit limb of the scalar-field modulus.
const BLS_MODULUS_LIMB_1: u64 = 0x53bda402fffe5bfe;

/// Lowest 64-bit limb of the scalar-field modulus.
const BLS_MODULUS_LIMB_0: u64 = 0xffffffff00000001;

/// Reads 8 bytes at `off` as one big-endian 64-bit limb.
fn be_limb(b: &[u8], off: usize) -> (v: u64)
    requires
        off + 8 <= b.len(),
    ensures
        v == b@[off as int] * 0x100000000000000int + b@[off as int + 1] * 0x1000000000000int + b@[off
            as int + 2] * 0x10000000000int + b@[off as int + 3] * 0x100000000int + b@[off as int + 4]
            * 0x1000000int + b@[off as int + 5] * 0x10000int + b@[off as int + 6] * 0x100int + b@[off as int
            + 7],
{
    (b[off] as u64) * 0x100000000000000 + (b[off + 1] as u64) * 0x1000000000000 + (b[off + 2]
        as u64) * 0x10000000000 + (b[off + 3] as u64) * 0x100000000 + (b[off + 4] as u64) * 0x1000000
        + (b[off + 5] as u64) * 0x10000 + (b[off + 6] as u64) * 0x100 + (b[off + 7] as u64)
}

/// Decides whether the 32-byte chunk at `off` is a canonical field element,
/// by comparing its four big-endian limbs with the modulus limbs.
#[verifier::rlimit(60)]
fn chunk_is_canonical(b: &[u8], off: usize) -> (r: bool)
    requires
        off + BYTES_PER_FIELD_ELEMENT <= b.len(),
    ensures
        r == chunk_canonical(b@.subrange(off as int, off as int + 32)),
{
    let v3 = be_limb(b, off);
    let v2 = be_limb(b, off + 8);
    let v1 = be_limb(b, off + 16);
    let v0 = be_limb(b, off + 24);
    let r = if v3 != BLS_MODULUS_LIMB_3 {
        v3 < BLS_MODULUS_LIMB_3
    } else if v2 != BLS_MODULUS_LIMB_2 {
        v2 < BLS_MODULUS_LIMB_2
    } else if v1 != BLS_MODULUS_LIMB_1 {
        v1 < BLS_MODULUS_LIMB_1
    } else {
        v0 < BLS_MODULUS_LIMB_0
    };
    proof {
        let c = b@.subrange(off as int, off as int + 32);
        assert(forall|k: int| 0 <= k < 32 ==> c[k] == b@[off + k]);
        assert(chunk_value(c) == v3 * 0x1000000000000000000000000000000000000000000000000int + v2
            * 0x100000000000000000000000000000000int + v1 * 0x10000000000000000int + v0);
    }
    r
}

/// Decides blob validity: exact length and every chunk canonical.
pub fn validate_blob(blob: &[u8]) -> (r: bool)
    ensures
        r == valid_blob(blob@),
{
    if blob.len() != BYTES_PER_BLOB {
        return false;
    }
    let mut i: usize = 0;
    while i < FIELD_ELEMENTS_PER_BLOB
        invariant
            blob@.len() == BYTES_PER_BLOB,
            i <= FIELD_ELEMENTS_PER_BLOB,
            forall|j: int|
                0 <= j < i ==> chunk_canonical(#[trigger] blob@.subrange(32 * j, 32 * j + 32)),
        decreases FIELD_ELEMENTS_PER_BLOB - i,
    {
        if !chunk_is_canonical(blob, i * 32) {
            assert(!chunk_canonical(blob@.subrange(32 * (i as int), 32 * (i as int) + 32)));
            return false;
        }
        i += 1;
    }
    true
}

} // verus!
