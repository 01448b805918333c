use proof_verifier::commitment::{
    cid_to_data_commitment_v1, cid_to_replica_commitment_v1, FIL_COMMITMENT_SEALED,
    FIL_COMMITMENT_UNSEALED, POSEIDON_BLS12_381_A2_FC1, SHA2_256_TRUNC254_PADDED,
};
use proof_verifier::error::{CommitmentKind, VerifierError};
use proof_verifier::prover::prover_id_from_u64;
use proof_verifier::randomness::canonicalize_randomness;
use proof_verifier::replica::to_fil_public_replica_infos;
use proof_verifier::seqops::flatten_in_order;
use proof_verifier::types::{Cid, ProofType, Randomness, SealProofTag, SectorInfo};
use proof_verifier::verify::concat_proof_bytes;
use proof_verifier::types::{PoStProof, PoStProofTag};

fn replica_cid(fill: u8) -> Cid {
    Cid { codec: FIL_COMMITMENT_SEALED, hash_code: POSEIDON_BLS12_381_A2_FC1, digest: vec![fill; 32] }
}

fn data_cid(fill: u8) -> Cid {
    Cid {
        codec: FIL_COMMITMENT_UNSEALED,
        hash_code: SHA2_256_TRUNC254_PADDED,
        digest: vec![fill; 32],
    }
}

fn sector(number: u64, fill: u8) -> SectorInfo {
    SectorInfo { proof: SealProofTag::StackedDRG2KiBV1, sector_number: number, sealed_cid: replica_cid(fill) }
}

#[test]
fn masking_all_ones_clears_top_bits() {
    let raw = Randomness(vec![0xFF; 32]);
    let masked = canonicalize_randomness(&raw);
    assert_eq!(masked.0.len(), 32);
    assert_eq!(masked.0[31], 0x3F);
    for i in 0..31 {
        assert_eq!(masked.0[i], 0xFF);
    }
    // The caller's buffer is untouched.
    assert_eq!(raw.0[31], 0xFF);
}

#[test]
fn masking_is_deterministic() {
    let raw = Randomness(vec![0xAB; 32]);
    let a = canonicalize_randomness(&raw);
    let b = canonicalize_randomness(&raw);
    assert_eq!(a.0, b.0);
    assert_eq!(a.0[31], 0xAB & 0x3F);
}

#[test]
fn prover_id_of_zero_is_zero_filled() {
    let id = prover_id_from_u64(0);
    assert_eq!(id, vec![0u8; 32]);
}

#[test]
fn prover_id_single_byte_payload() {
    let id = prover_id_from_u64(1);
    let mut expected = vec![0u8; 32];
    expected[0] = 1;
    assert_eq!(id, expected);
}

#[test]
fn prover_id_varint_continuation() {
    let id = prover_id_from_u64(128);
    let mut expected = vec![0u8; 32];
    expected[0] = 0x80;
    expected[1] = 0x01;
    assert_eq!(id, expected);
}

#[test]
fn prover_id_max_value() {
    let id = prover_id_from_u64(u64::MAX);
    let mut expected = vec![0u8; 32];
    for i in 0..9 {
        expected[i] = 0xFF;
    }
    expected[9] = 0x01;
    assert_eq!(id, expected);
}

#[test]
fn replica_commitment_decodes() {
    let c = replica_cid(7);
    let d = cid_to_replica_commitment_v1(&c).unwrap();
    assert_eq!(d, vec![7u8; 32]);
}

#[test]
fn replica_commitment_rejects_wrong_codec() {
    let mut c = replica_cid(7);
    c.codec = FIL_COMMITMENT_UNSEALED;
    let r = cid_to_replica_commitment_v1(&c);
    assert!(matches!(r, Err(VerifierError::MalformedCommitment(CommitmentKind::Replica))));
}

#[test]
fn replica_commitment_rejects_wrong_multihash() {
    let mut c = replica_cid(7);
    c.hash_code = SHA2_256_TRUNC254_PADDED;
    let r = cid_to_replica_commitment_v1(&c);
    assert!(matches!(r, Err(VerifierError::MalformedCommitment(CommitmentKind::Replica))));
}

#[test]
fn replica_commitment_rejects_short_digest() {
    let mut c = replica_cid(7);
    c.digest = vec![7u8; 31];
    let r = cid_to_replica_commitment_v1(&c);
    assert!(matches!(r, Err(VerifierError::MalformedCommitment(CommitmentKind::Replica))));
}

#[test]
fn data_commitment_decodes_and_rejects() {
    let c = data_cid(9);
    assert_eq!(cid_to_data_commitment_v1(&c).unwrap(), vec![9u8; 32]);
    let wrong = replica_cid(9);
    let r = cid_to_data_commitment_v1(&wrong);
    assert!(matches!(r, Err(VerifierError::MalformedCommitment(CommitmentKind::Data))));
}

#[test]
fn replica_set_is_key_ordered() {
    let src = vec![sector(5, 1), sector(2, 2), sector(9, 3)];
    let m = to_fil_public_replica_infos(&src, ProofType::Winning).unwrap();
    let keys: Vec<u64> = m.iter().map(|e| e.0).collect();
    assert_eq!(keys, vec![2, 5, 9]);
    assert_eq!(m[0].1.comm_r, vec![2u8; 32]);
    assert_eq!(m[0].1.post_proof, PoStProofTag::StackedDRGWinning2KiBV1);
}

#[test]
fn replica_set_invariant_under_permutation() {
    let a = vec![sector(5, 1), sector(2, 2), sector(9, 3)];
    let b = vec![sector(9, 3), sector(5, 1), sector(2, 2)];
    let ma = to_fil_public_replica_infos(&a, ProofType::Window).unwrap();
    let mb = to_fil_public_replica_infos(&b, ProofType::Window).unwrap();
    assert_eq!(ma.len(), mb.len());
    for i in 0..ma.len() {
        assert_eq!(ma[i].0, mb[i].0);
        assert_eq!(ma[i].1.post_proof, mb[i].1.post_proof);
        assert_eq!(ma[i].1.comm_r, mb[i].1.comm_r);
    }
}

#[test]
fn replica_set_later_duplicate_wins() {
    let src = vec![sector(5, 1), sector(5, 4)];
    let m = to_fil_public_replica_infos(&src, ProofType::Winning).unwrap();
    assert_eq!(m.len(), 1);
    assert_eq!(m[0].0, 5);
    assert_eq!(m[0].1.comm_r, vec![4u8; 32]);
}

#[test]
fn replica_set_fails_on_bad_commitment() {
    let mut bad = sector(3, 1);
    bad.sealed_cid.codec = FIL_COMMITMENT_UNSEALED;
    let src = vec![sector(1, 1), bad];
    let r = to_fil_public_replica_infos(&src, ProofType::Winning);
    assert!(matches!(r, Err(VerifierError::MalformedCommitment(CommitmentKind::Replica))));
}

#[test]
fn replica_set_fails_on_unresolvable_descriptor() {
    let mut bad = sector(3, 1);
    bad.proof = SealProofTag::Invalid(77);
    let src = vec![bad];
    let r = to_fil_public_replica_infos(&src, ProofType::Window);
    assert!(matches!(r, Err(VerifierError::UnsupportedProofType)));
}

#[test]
fn flatten_keeps_order_and_boundaries() {
    let parts: Vec<Vec<u32>> = vec![vec![1, 2], vec![3], vec![], vec![4, 5]];
    let flat = flatten_in_order(parts);
    assert_eq!(flat, vec![1, 2, 3, 4, 5]);
}

#[test]
fn concat_proof_bytes_in_input_order() {
    let proofs = vec![
        PoStProof { post_proof: PoStProofTag::StackedDRGWinning2KiBV1, proof_bytes: vec![1, 2] },
        PoStProof { post_proof: PoStProofTag::StackedDRGWinning8MiBV1, proof_bytes: vec![3] },
    ];
    assert_eq!(concat_proof_bytes(&proofs), vec![1, 2, 3]);
}

#[test]
fn concat_proof_bytes_ignores_type_tags() {
    let a = vec![
        PoStProof { post_proof: PoStProofTag::StackedDRGWinning2KiBV1, proof_bytes: vec![1, 2] },
        PoStProof { post_proof: PoStProofTag::StackedDRGWinning2KiBV1, proof_bytes: vec![3] },
    ];
    let b = vec![
        PoStProof { post_proof: PoStProofTag::StackedDRGWindow64GiBV1, proof_bytes: vec![1, 2] },
        PoStProof { post_proof: PoStProofTag::Invalid(5), proof_bytes: vec![3] },
    ];
    assert_eq!(concat_proof_bytes(&a), concat_proof_bytes(&b));
}
