use proof_verifier::commitment::{
    FIL_COMMITMENT_SEALED, FIL_COMMITMENT_UNSEALED, POSEIDON_BLS12_381_A2_FC1,
    SHA2_256_TRUNC254_PADDED,
};
use proof_verifier::error::{CommitmentKind, VerifierError};
use proof_verifier::types::{
    AggregateProofTag, AggregateSealVerifyInfo, AggregateSealVerifyProofAndInfos, Cid, PoStProof,
    PoStProofTag, Randomness, SealProofTag, SealVerifyInfo, SectorID, SectorInfo,
};
use proof_verifier::verify::{map_backend_outcome, post_proofs_to_api, FullVerifier, ProofVerifier};
use proof_verifier::error::ProofKind;

fn replica_cid(fill: u8) -> Cid {
    Cid { codec: FIL_COMMITMENT_SEALED, hash_code: POSEIDON_BLS12_381_A2_FC1, digest: vec![fill; 32] }
}

fn data_cid(fill: u8) -> Cid {
    Cid {
        codec: FIL_COMMITMENT_UNSEALED,
        hash_code: SHA2_256_TRUNC254_PADDED,
        digest: vec![fill; 32],
    }
}

fn seal_info() -> SealVerifyInfo {
    SealVerifyInfo {
        registered_proof: SealProofTag::StackedDRG2KiBV1,
        sector_id: SectorID { miner: 100, number: 1 },
        sealed_cid: replica_cid(1),
        unsealed_cid: data_cid(2),
        randomness: Randomness(vec![3; 32]),
        interactive_randomness: Randomness(vec![4; 32]),
        proof: vec![0; 192],
    }
}

fn agg_info(number: u64) -> AggregateSealVerifyInfo {
    AggregateSealVerifyInfo {
        sector_number: number,
        randomness: Randomness(vec![3; 32]),
        interactive_randomness: Randomness(vec![4; 32]),
        sealed_cid: replica_cid(1),
        unsealed_cid: data_cid(2),
    }
}

fn aggregate(infos: Vec<AggregateSealVerifyInfo>) -> AggregateSealVerifyProofAndInfos {
    AggregateSealVerifyProofAndInfos {
        miner: 100,
        seal_proof: SealProofTag::StackedDRG2KiBV1,
        aggregate_proof: AggregateProofTag::SnarkPackV1,
        proof: vec![0; 16],
        infos,
    }
}

#[test]
fn outcome_true_is_acceptance() {
    assert!(map_backend_outcome(ProofKind::Seal, Ok(true)).is_ok());
}

#[test]
fn outcome_false_is_definitive_rejection() {
    let r = map_backend_outcome(ProofKind::WinningPost, Ok(false));
    assert!(matches!(r, Err(VerifierError::BackendRejected(ProofKind::WinningPost))));
}

#[test]
fn outcome_error_keeps_backend_diagnostic() {
    let r = map_backend_outcome(ProofKind::Seal, Err(String::from("fault")));
    match r {
        Err(VerifierError::BackendInternal(m)) => assert_eq!(m, "fault"),
        _ => panic!("expected a backend diagnostic"),
    }
}

#[test]
fn seal_rejects_malformed_replica_commitment() {
    let mut vi = seal_info();
    vi.sealed_cid.codec = FIL_COMMITMENT_UNSEALED;
    let r = <FullVerifier as ProofVerifier>::verify_seal(&vi);
    assert!(matches!(r, Err(VerifierError::MalformedCommitment(CommitmentKind::Replica))));
}

#[test]
fn seal_rejects_malformed_data_commitment() {
    let mut vi = seal_info();
    vi.unsealed_cid.hash_code = POSEIDON_BLS12_381_A2_FC1;
    let r = <FullVerifier as ProofVerifier>::verify_seal(&vi);
    assert!(matches!(r, Err(VerifierError::MalformedCommitment(CommitmentKind::Data))));
}

#[test]
fn seal_rejects_unsupported_proof_type() {
    let mut vi = seal_info();
    vi.registered_proof = SealProofTag::Invalid(-1);
    let r = <FullVerifier as ProofVerifier>::verify_seal(&vi);
    assert!(matches!(r, Err(VerifierError::UnsupportedProofType)));
}

#[test]
fn seal_with_garbage_proof_reaches_backend() {
    let vi = seal_info();
    let r = <FullVerifier as ProofVerifier>::verify_seal(&vi);
    // Without cached proving parameters the backend cannot execute; the
    // claim must surface as a backend diagnostic or a rejection, never as
    // a decode error, and never as acceptance.
    match r {
        Err(VerifierError::BackendInternal(_)) => {},
        Err(VerifierError::BackendRejected(ProofKind::Seal)) => {},
        other => panic!("unexpected outcome: {:?}", other),
    }
}

#[test]
fn aggregate_empty_batch_is_invalid_precondition() {
    let r = <FullVerifier as ProofVerifier>::verify_aggregate_seals(&aggregate(vec![]));
    assert!(matches!(r, Err(VerifierError::InvalidPrecondition)));
}

#[test]
fn aggregate_empty_batch_error_is_independent_of_other_fields() {
    let mut agg = aggregate(vec![]);
    agg.seal_proof = SealProofTag::Invalid(-3);
    agg.aggregate_proof = AggregateProofTag::Invalid(9);
    agg.proof = vec![];
    let r = <FullVerifier as ProofVerifier>::verify_aggregate_seals(&agg);
    assert!(matches!(r, Err(VerifierError::InvalidPrecondition)));
}

#[test]
fn aggregate_rejects_unsupported_seal_proof() {
    let mut agg = aggregate(vec![agg_info(1)]);
    agg.seal_proof = SealProofTag::Invalid(0);
    let r = <FullVerifier as ProofVerifier>::verify_aggregate_seals(&agg);
    assert!(matches!(r, Err(VerifierError::UnsupportedProofType)));
}

#[test]
fn aggregate_rejects_first_malformed_commitment() {
    let mut second = agg_info(2);
    second.unsealed_cid.digest = vec![2; 16];
    let agg = aggregate(vec![agg_info(1), second]);
    let r = <FullVerifier as ProofVerifier>::verify_aggregate_seals(&agg);
    assert!(matches!(r, Err(VerifierError::MalformedCommitment(CommitmentKind::Data))));
}

#[test]
fn winning_post_rejects_malformed_sector() {
    let mut s = SectorInfo {
        proof: SealProofTag::StackedDRG2KiBV1,
        sector_number: 0,
        sealed_cid: replica_cid(1),
    };
    s.sealed_cid.codec = FIL_COMMITMENT_UNSEALED;
    let r = <FullVerifier as ProofVerifier>::verify_winning_post(
        Randomness(vec![0xFF; 32]),
        &vec![],
        &vec![s],
        100,
    );
    assert!(matches!(r, Err(VerifierError::MalformedCommitment(CommitmentKind::Replica))));
}

#[test]
fn window_post_rejects_unsupported_proof_tag() {
    let sectors = vec![SectorInfo {
        proof: SealProofTag::StackedDRG2KiBV1,
        sector_number: 0,
        sealed_cid: replica_cid(1),
    }];
    let proofs = vec![PoStProof { post_proof: PoStProofTag::Invalid(3), proof_bytes: vec![1] }];
    let r = <FullVerifier as ProofVerifier>::verify_window_post(
        Randomness(vec![0xFF; 32]),
        &proofs,
        &sectors,
        100,
    );
    assert!(matches!(r, Err(VerifierError::UnsupportedProofType)));
}

#[test]
fn window_pairs_accept_mixed_recognized_tags() {
    let proofs = vec![
        PoStProof { post_proof: PoStProofTag::StackedDRGWindow2KiBV1, proof_bytes: vec![1, 2] },
        PoStProof { post_proof: PoStProofTag::StackedDRGWindow64GiBV1, proof_bytes: vec![3] },
    ];
    let pairs = post_proofs_to_api(&proofs).unwrap();
    assert_eq!(pairs.len(), 2);
    assert_eq!(pairs[0].1, vec![1, 2]);
    assert_eq!(pairs[1].1, vec![3]);
}

#[test]
fn challenge_generation_is_deterministic() {
    let a = <FullVerifier as ProofVerifier>::generate_winning_post_sector_challenge(
        PoStProofTag::StackedDRGWinning2KiBV1,
        42,
        Randomness(vec![7; 32]),
        10,
    )
    .unwrap();
    let b = <FullVerifier as ProofVerifier>::generate_winning_post_sector_challenge(
        PoStProofTag::StackedDRGWinning2KiBV1,
        42,
        Randomness(vec![7; 32]),
        10,
    )
    .unwrap();
    assert_eq!(a, b);
    assert!(!a.is_empty());
    for c in &a {
        assert!(*c < 10);
    }
}

#[test]
fn challenge_generation_rejects_unsupported_tag() {
    let r = <FullVerifier as ProofVerifier>::generate_winning_post_sector_challenge(
        PoStProofTag::Invalid(1),
        42,
        Randomness(vec![7; 32]),
        10,
    );
    assert!(matches!(r, Err(VerifierError::UnsupportedProofType)));
}

#[test]
fn challenge_generation_rejects_empty_sector_set() {
    let r = <FullVerifier as ProofVerifier>::generate_winning_post_sector_challenge(
        PoStProofTag::StackedDRGWinning2KiBV1,
        42,
        Randomness(vec![7; 32]),
        0,
    );
    assert!(r.is_err());
}

#[test]
fn aggregate_with_decodable_batch_reaches_backend() {
    // Both entries decode, so input derivation runs across the batch and
    // the aggregate claim must surface as a backend outcome, never as a
    // decode error.
    let agg = aggregate(vec![agg_info(1), agg_info(2)]);
    let r = <FullVerifier as ProofVerifier>::verify_aggregate_seals(&agg);
    match r {
        Err(VerifierError::BackendInternal(_)) => {},
        Err(VerifierError::BackendRejected(ProofKind::AggregateSeal)) => {},
        other => panic!("unexpected outcome: {:?}", other),
    }
}

#[test]
fn aggregate_unsupported_aggregation_tag_is_never_a_rejection() {
    let mut agg = aggregate(vec![agg_info(1)]);
    agg.aggregate_proof = AggregateProofTag::Invalid(2);
    let r = <FullVerifier as ProofVerifier>::verify_aggregate_seals(&agg);
    match r {
        Err(VerifierError::UnsupportedProofType) => {},
        Err(VerifierError::BackendInternal(_)) => {},
        other => panic!("unexpected outcome: {:?}", other),
    }
}
