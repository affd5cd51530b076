//! End-to-end tests of the commitment engine through its public surface.

use kzg_rs_blend::BYTES_PER_BLOB;
use kzg_rs_blend::CKzg;
use kzg_rs_blend::KzgImplementation;
use kzg_rs_blend::KzgRs;
use kzg_rs_blend::RaikoError;
use kzg_rs_blend::VERSIONED_HASH_VERSION_KZG;
use kzg_rs_blend::blob_to_commitment;
use kzg_rs_blend::blob_to_proof;
use kzg_rs_blend::commitment_to_version_hash;
use kzg_rs_blend::validate_blob;
use kzg_rs_blend::verify_blob_kzg_proof;
use kzg_rs_blend::verify_kzg_proof;

/// A second valid blob, different from the all-zero one: the last byte of
/// the first 32-byte chunk is 1, which is far below the field modulus.
fn other_blob() -> Vec<u8> {
    let mut blob = vec![0u8; BYTES_PER_BLOB];
    blob[31] = 1;
    blob
}

#[test]
fn blob_commitment_version_hash_and_proof_verify() {
    let blob_bytes = vec![0u8; BYTES_PER_BLOB];
    let commitment_bytes = blob_to_commitment(&blob_bytes).expect("commitment");

    let proof_bytes = blob_to_proof(&blob_bytes, &commitment_bytes).expect("proof");

    verify_blob_kzg_proof(&blob_bytes, &commitment_bytes, &proof_bytes).expect("verify proof");

    let version_hash = commitment_to_version_hash(&commitment_bytes);
    let mut expected: [u8; 32] = <sha2::Sha256 as sha2::Digest>::digest(&commitment_bytes).into();
    expected[0] = VERSIONED_HASH_VERSION_KZG;
    assert_eq!(version_hash, expected);
}

#[test]
fn test_verify_kzg_proof() {
    // Zero commitment and proof bytes are not valid point encodings, so the
    // verdict is a rejection.
    let blob = vec![0u8; 131072];
    let commitment: [u8; 48] = [0u8; 48];
    let proof: [u8; 48] = [0u8; 48];

    let result = verify_kzg_proof(&blob, &commitment, &proof);
    println!("Verification result: {}", result);
}

#[test]
fn zero_blob_round_trip_succeeds() {
    let blob = vec![0u8; BYTES_PER_BLOB];
    let commitment = blob_to_commitment(&blob).expect("commitment of zero blob");
    let proof = blob_to_proof(&blob, &commitment).expect("proof of zero blob");
    verify_blob_kzg_proof(&blob, &commitment, &proof).expect("round trip verifies");
    assert!(verify_kzg_proof(&blob, &commitment, &proof));
}

#[test]
fn zero_blob_commitment_is_the_identity_point() {
    // Every chunk of the zero blob is the zero field element, so the
    // commitment is the group identity, whose compressed encoding is 0xc0
    // followed by 47 zero bytes.
    let blob = vec![0u8; BYTES_PER_BLOB];
    let commitment = blob_to_commitment(&blob).expect("commitment of zero blob");
    let mut expected = [0u8; 48];
    expected[0] = 0xc0;
    assert_eq!(commitment, expected);
}

#[test]
fn commitment_is_deterministic() {
    let blob = other_blob();
    let first = blob_to_commitment(&blob).expect("first commitment");
    let second = blob_to_commitment(&blob).expect("second commitment");
    assert_eq!(first, second);
    let p1 = blob_to_proof(&blob, &first).expect("first proof");
    let p2 = blob_to_proof(&blob, &second).expect("second proof");
    assert_eq!(p1, p2);
}

#[test]
fn backends_agree_on_commitment_and_proof() {
    let blob = other_blob();
    let full = CKzg;
    let lite = KzgRs;

    let c_full = full.blob_to_commitment(&blob).expect("full commitment");
    let c_lite = lite.blob_to_commitment(&blob).expect("lite commitment");
    assert_eq!(c_full, c_lite);

    let p_full = full.blob_to_proof(&blob, &c_full).expect("full proof");
    let p_lite = lite.blob_to_proof(&blob, &c_lite).expect("lite proof");
    assert_eq!(p_full, p_lite);
}

#[test]
fn each_backend_accepts_the_others_artifacts() {
    let blob = vec![0u8; BYTES_PER_BLOB];
    let full = CKzg;
    let lite = KzgRs;

    let commitment = full.blob_to_commitment(&blob).expect("commitment");
    let proof = full.blob_to_proof(&blob, &commitment).expect("proof");

    full.verify_blob_kzg_proof(&blob, &commitment, &proof).expect("full backend accepts");
    lite.verify_blob_kzg_proof(&blob, &commitment, &proof).expect("lite backend accepts");
}

#[test]
fn wrong_proof_is_rejected_as_proof_invalid() {
    let blob = vec![0u8; BYTES_PER_BLOB];
    let blob2 = other_blob();

    let commitment = blob_to_commitment(&blob).expect("commitment of blob");
    let commitment2 = blob_to_commitment(&blob2).expect("commitment of other blob");
    let proof2 = blob_to_proof(&blob2, &commitment2).expect("proof of other blob");

    let err = verify_blob_kzg_proof(&blob, &commitment, &proof2)
        .expect_err("mismatched proof must be rejected");
    assert!(matches!(err, RaikoError::ProofInvalid(_)));
}

#[test]
fn wrong_length_blobs_are_rejected_everywhere() {
    let commitment = [0u8; 48];
    let proof = [0u8; 48];
    for blob in [vec![], vec![0u8; 1], vec![0u8; BYTES_PER_BLOB - 1], vec![
        0u8;
        BYTES_PER_BLOB + 1
    ]] {
        let err = blob_to_commitment(&blob).expect_err("commitment must reject");
        assert!(matches!(err, RaikoError::InvalidBlobData(_)));
        let err = blob_to_proof(&blob, &commitment).expect_err("proof must reject");
        assert!(matches!(err, RaikoError::InvalidBlobData(_)));
        let err = verify_blob_kzg_proof(&blob, &commitment, &proof).expect_err("verify must reject");
        assert!(matches!(err, RaikoError::InvalidBlobData(_)));
        assert!(!verify_kzg_proof(&blob, &commitment, &proof));
    }
}

#[test]
fn non_canonical_chunk_is_rejected() {
    // A chunk of all 0xff bytes is far above the field modulus.
    let mut blob = vec![0u8; BYTES_PER_BLOB];
    for byte in blob.iter_mut().take(32) {
        *byte = 0xff;
    }
    assert!(!validate_blob(&blob));
    let err = blob_to_commitment(&blob).expect_err("non-canonical chunk must be rejected");
    assert!(matches!(err, RaikoError::InvalidBlobData(_)));
}

#[test]
fn chunk_just_below_and_at_the_modulus() {
    // The modulus itself, written big-endian into the first chunk, is not
    // canonical; the modulus minus one is.
    let modulus: [u8; 32] = [
        0x73, 0xed, 0xa7, 0x53, 0x29, 0x9d, 0x7d, 0x48, 0x33, 0x39, 0xd8, 0x08, 0x09, 0xa1, 0xd8,
        0x05, 0x53, 0xbd, 0xa4, 0x02, 0xff, 0xfe, 0x5b, 0xfe, 0xff, 0xff, 0xff, 0xff, 0x00, 0x00,
        0x00, 0x01,
    ];
    let mut blob = vec![0u8; BYTES_PER_BLOB];
    blob[..32].copy_from_slice(&modulus);
    assert!(!validate_blob(&blob));

    blob[31] = 0x00; // modulus minus one
    assert!(validate_blob(&blob));
}

#[test]
fn invalid_point_encodings_are_told_apart() {
    let blob = vec![0u8; BYTES_PER_BLOB];
    let commitment = blob_to_commitment(&blob).expect("commitment");
    let proof = blob_to_proof(&blob, &commitment).expect("proof");
    let bad = [0u8; 48];

    let err = verify_blob_kzg_proof(&blob, &bad, &proof).expect_err("bad commitment");
    assert!(matches!(err, RaikoError::InvalidCommitment(_)));

    let err = verify_blob_kzg_proof(&blob, &commitment, &bad).expect_err("bad proof");
    assert!(matches!(err, RaikoError::InvalidProof(_)));

    let err = blob_to_proof(&blob, &bad).expect_err("bad commitment for proving");
    assert!(matches!(err, RaikoError::InvalidCommitment(_)));
}

#[test]
fn versioned_hash_has_the_version_tag_and_digest_tail() {
    let commitment = [0x17u8; 48];
    let hash = commitment_to_version_hash(&commitment);
    let digest: [u8; 32] = <sha2::Sha256 as sha2::Digest>::digest(&commitment).into();
    assert_eq!(hash[0], 0x01);
    assert_eq!(hash[1..], digest[1..]);
    assert_ne!(hash, [0u8; 32]);
}

#[test]
fn error_kind_names_are_stable() {
    let err = RaikoError::InvalidBlobData("short".to_string());
    assert_eq!(err.kind_name(), "invalid blob data");
    assert_eq!(err.detail(), "short");
    let err = RaikoError::ProofInvalid("rejected".to_string());
    assert_eq!(err.kind_name(), "proof invalid");
}
