use vstd::prelude::*;
use crate::backend::{api_aggregate_proof, api_post_proof, api_seal_proof,
    backend_verify_aggregate_seals, backend_verify_seal, backend_verify_window_post,
    backend_verify_winning_post, backend_winning_challenges, derive_seal_inputs_batch,
    winning_challenge_seq};
use crate::commitment::{cid_to_data_commitment_v1, cid_to_replica_commitment_v1, data_cid_ok,
    replica_cid_ok};
use crate::error::{CommitmentKind, ProofKind, VerifierError};
use crate::prover::{lemma_prover_id_high_byte, prover_id_bytes, prover_id_from_u64};
use crate::randomness::{canonicalize_randomness, copy_bytes, masked};
use crate::replica::{entry_error, entry_ok, replicas_wf, to_fil_public_replica_infos,
    PublicReplica};
use crate::seqops::{flatten_in_order, lemma_flatten_segment, segment_offset};
use crate::types::{AggregateSealVerifyInfo, AggregateSealVerifyProofAndInfos, AggregationInputs,
    PoStProof, ProofType, Randomness, PoStProofTag, SealVerifyInfo, SectorInfo};

verus! {

/// True when both commitments of a seal claim decode and its proof-type
/// tag is recognized: exactly the claims that reach the proof backend.
pub open spec fn seal_decode_ok(vi: SealVerifyInfo) -> bool {
    replica_cid_ok(vi.sealed_cid) && data_cid_ok(vi.unsealed_cid)
        && vi.registered_proof.is_supported()
}

/// True when both commitments of an aggregate entry decode.
pub open spec fn agg_info_ok(info: AggregateSealVerifyInfo) -> bool {
    replica_cid_ok(info.sealed_cid) && data_cid_ok(info.unsealed_cid)
}

/// The error a failing aggregate entry produces; the replica commitment
/// is checked before the data commitment.
pub open spec fn agg_info_error(info: AggregateSealVerifyInfo) -> VerifierError {
    if !replica_cid_ok(info.sealed_cid) {
        VerifierError::MalformedCommitment(CommitmentKind::Replica)
    } else {
        VerifierError::MalformedCommitment(CommitmentKind::Data)
    }
}

/// The derivation inputs assembled from one aggregate entry: decoded
/// commitments, sector number, and the two randomness values as ticket
/// and seed.
pub open spec fn agg_input_matches(a: AggregationInputs, info: AggregateSealVerifyInfo) -> bool {
    a.comm_r@ == info.sealed_cid.digest@ && a.comm_d@ == info.unsealed_cid.digest@
        && a.sector_number == info.sector_number && a.ticket@ == info.randomness.0@ && a.seed@
        == info.interactive_randomness.0@
}

/// Every randomness buffer of the batch holds its 32 bytes.
pub open spec fn agg_randomness_wf(infos: Seq<AggregateSealVerifyInfo>) -> bool {
    forall|i: int|
        0 <= i < infos.len() ==> (#[trigger] infos[i]).randomness.0@.len() == 32
            && infos[i].interactive_randomness.0@.len() == 32
}

/// The proof byte buffers of a claim list, in input order.
pub open spec fn proof_bytes_views(proofs: Seq<PoStProof>) -> Seq<Seq<u8>> {
    proofs.map_values(|p: PoStProof| p.proof_bytes@)
}

/// True when every claim in the list carries a recognized PoSt tag.
pub open spec fn posts_supported(proofs: Seq<PoStProof>) -> bool {
    forall|j: int| 0 <= j < proofs.len() ==> (#[trigger] proofs[j]).post_proof.is_supported()
}

/// Translates the backend's outcome into the typed result: a `true`
/// answer is acceptance, a `false` answer is the definitive rejection
/// for the given proof kind, and a backend failure keeps its diagnostic.
pub fn map_backend_outcome(kind: ProofKind, outcome: Result<bool, String>) -> (r: Result<
    (),
    VerifierError,
>)
    ensures
        outcome == Ok::<bool, String>(true) ==> r is Ok,
        outcome == Ok::<bool, String>(false) ==> r == Err::<(), VerifierError>(
            VerifierError::BackendRejected(kind),
        ),
        (outcome matches Err(m) ==> r == Err::<(), VerifierError>(
            VerifierError::BackendInternal(m),
        )),
        r is Ok <==> outcome == Ok::<bool, String>(true),
        (r matches Err(e) ==> e == VerifierError::BackendRejected(kind) || e is BackendInternal),
{
    match outcome {
        Ok(true) => Ok(()),
        Ok(false) => Err(VerifierError::BackendRejected(kind)),
        Err(m) => Err(VerifierError::BackendInternal(m)),
    }
}

/// Assembles the derivation inputs of every aggregate entry, in batch
/// order; fails on the first entry whose commitments do not decode.
pub fn build_aggregation_inputs(infos: &Vec<AggregateSealVerifyInfo>) -> (r: Result<
    Vec<AggregationInputs>,
    VerifierError,
>)
    ensures
        r is Ok <==> (forall|j: int| 0 <= j < infos@.len() ==> #[trigger] agg_info_ok(infos@[j])),
        r matches Ok(v) ==> v@.len() == infos@.len() && (forall|j: int|
            0 <= j < infos@.len() ==> #[trigger] agg_input_matches(v@[j], infos@[j])),
        forall|j: int|
            0 <= j < infos@.len() && !(#[trigger] agg_info_ok(infos@[j])) && (forall|i: int|
                0 <= i < j ==> agg_info_ok(infos@[i])) ==> r == Err::<
                Vec<AggregationInputs>,
                VerifierError,
            >(agg_info_error(infos@[j])),
{
    let mut out: Vec<AggregationInputs> = Vec::new();
    let mut idx: usize = 0;
    while idx < infos.len()
        invariant
            idx <= infos@.len(),
            out@.len() == idx,
            forall|i: int| 0 <= i < idx ==> #[trigger] agg_info_ok(infos@[i]),
            forall|i: int| 0 <= i < idx ==> #[trigger] agg_input_matches(out@[i], infos@[i]),
        decreases infos@.len() - idx,
    {
        let info = &infos[idx];
        let comm_r = match cid_to_replica_commitment_v1(&info.sealed_cid) {
            Ok(c) => c,
            Err(e) => {
                proof {
                    assert(!agg_info_ok(infos@[idx as int]));
                    assert(e == agg_info_error(infos@[idx as int]));
                }
                return Err(e);
            },
        };
        let comm_d = match cid_to_data_commitment_v1(&info.unsealed_cid) {
            Ok(c) => c,
            Err(e) => {
                proof {
                    assert(!agg_info_ok(infos@[idx as int]));
                    assert(e == agg_info_error(infos@[idx as int]));
                }
                return Err(e);
            },
        };
        let ticket = copy_bytes(&info.randomness.0);
        let seed = copy_bytes(&info.interactive_randomness.0);
        out.push(
            AggregationInputs {
                comm_r,
                comm_d,
                sector_number: info.sector_number,
                ticket,
                seed,
            },
        );
        idx = idx + 1;
        proof {
            assert(agg_input_matches(out@[idx - 1], infos@[idx - 1]));
        }
    }
    Ok(out)
}

/// The replica-commitment array of the batch, index-aligned with it.
pub fn extract_comm_rs(inputs: &Vec<AggregationInputs>) -> (r: Vec<Vec<u8>>)
    ensures
        r@.len() == inputs@.len(),
        forall|j: int| 0 <= j < inputs@.len() ==> (#[trigger] r@[j])@ == inputs@[j].comm_r@,
{
    let mut out: Vec<Vec<u8>> = Vec::new();
    let mut idx: usize = 0;
    while idx < inputs.len()
        invariant
            idx <= inputs@.len(),
            out@.len() == idx,
            forall|j: int| 0 <= j < idx ==> (#[trigger] out@[j])@ == inputs@[j].comm_r@,
        decreases inputs@.len() - idx,
    {
        out.push(copy_bytes(&inputs[idx].comm_r));
        idx = idx + 1;
    }
    out
}

/// The seed array of the batch, index-aligned with it.
pub fn extract_seeds(inputs: &Vec<AggregationInputs>) -> (r: Vec<Vec<u8>>)
    ensures
        r@.len() == inputs@.len(),
        forall|j: int| 0 <= j < inputs@.len() ==> (#[trigger] r@[j])@ == inputs@[j].seed@,
{
    let mut out: Vec<Vec<u8>> = Vec::new();
    let mut idx: usize = 0;
    while idx < inputs.len()
        invariant
            idx <= inputs@.len(),
            out@.len() == idx,
            forall|j: int| 0 <= j < idx ==> (#[trigger] out@[j])@ == inputs@[j].seed@,
        decreases inputs@.len() - idx,
    {
        out.push(copy_bytes(&inputs[idx].seed));
        idx = idx + 1;
    }
    out
}

/// Aggregate input derivation preserves order: in the concatenation of
/// the per-sector derived-input vectors, sector `k`'s segment starts at
/// the summed length of the earlier sectors' vectors and equals sector
/// `k`'s own vector — the same index `k` that addresses the commitment
/// and seed arrays built from the same input sequence — however the
/// per-sector derivations were scheduled.
pub proof fn lemma_aggregate_alignment<T>(
    parts: Seq<Seq<T>>,
    inputs: Seq<AggregationInputs>,
    comm_rs: Seq<Seq<u8>>,
    seeds: Seq<Seq<u8>>,
    k: int,
)
    requires
        parts.len() == inputs.len(),
        comm_rs.len() == inputs.len(),
        seeds.len() == inputs.len(),
        forall|j: int|
            0 <= j < inputs.len() ==> comm_rs[j] == (#[trigger] inputs[j]).comm_r@ && seeds[j]
                == inputs[j].seed@,
        0 <= k < parts.len(),
    ensures
        parts.flatten().subrange(
            segment_offset(parts, k),
            segment_offset(parts, k) + parts[k].len() as int,
        ) == parts[k],
        comm_rs[k] == inputs[k].comm_r@,
        seeds[k] == inputs[k].seed@,
{
    lemma_flatten_segment(parts, k);
}

/// Concatenates the proof byte buffers of all claims, in input order;
/// the type tags are not consulted.
pub fn concat_proof_bytes(proofs: &Vec<PoStProof>) -> (r: Vec<u8>)
    ensures
        r@ == proof_bytes_views(proofs@).flatten(),
{
    let mut out: Vec<u8> = Vec::new();
    let mut idx: usize = 0;
    proof {
        assert(proof_bytes_views(proofs@.subrange(0, 0)).flatten() =~= Seq::<u8>::empty());
    }
    while idx < proofs.len()
        invariant
            idx <= proofs@.len(),
            out@ == proof_bytes_views(proofs@.subrange(0, idx as int)).flatten(),
        decreases proofs@.len() - idx,
    {
        let mut piece = copy_bytes(&proofs[idx].proof_bytes);
        out.append(&mut piece);
        idx = idx + 1;
        proof {
            let pv = proof_bytes_views(proofs@.subrange(0, idx - 1));
            assert(proof_bytes_views(proofs@.subrange(0, idx as int)) =~= pv.push(
                proofs@[idx - 1].proof_bytes@,
            ));
            pv.lemma_flatten_push(proofs@[idx - 1].proof_bytes@);
        }
    }
    proof {
        assert(proofs@.subrange(0, proofs@.len() as int) =~= proofs@);
    }
    out
}

/// A Winning PoSt consumes proof bytes only: two claim lists with the
/// same byte buffers in the same order concatenate identically, whatever
/// their type tags.
pub proof fn lemma_winning_concat_ignores_tags(a: Seq<PoStProof>, b: Seq<PoStProof>)
    requires
        a.len() == b.len(),
        forall|j: int| 0 <= j < a.len() ==> (#[trigger] a[j]).proof_bytes@ == b[j].proof_bytes@,
    ensures
        proof_bytes_views(a).flatten() == proof_bytes_views(b).flatten(),
{
    assert(proof_bytes_views(a) =~= proof_bytes_views(b));
}

/// Converts a key-ordered replica set into the backend's element shape,
/// keeping keys and commitments.
fn replicas_to_api(m: &Vec<(u64, PublicReplica)>) -> (r: Vec<
    (u64, filecoin_proofs_api::RegisteredPoStProof, Vec<u8>),
>)
    requires
        replicas_wf(m@),
    ensures
        r@.len() == m@.len(),
        forall|j: int|
            0 <= j < m@.len() ==> (#[trigger] r@[j]).0 == m@[j].0 && r@[j].2@ == m@[j].1.comm_r@,
{
    let mut out: Vec<(u64, filecoin_proofs_api::RegisteredPoStProof, Vec<u8>)> = Vec::new();
    let mut idx: usize = 0;
    while idx < m.len()
        invariant
            idx <= m@.len(),
            replicas_wf(m@),
            out@.len() == idx,
            forall|j: int|
                0 <= j < idx ==> (#[trigger] out@[j]).0 == m@[j].0 && out@[j].2@
                    == m@[j].1.comm_r@,
        decreases m@.len() - idx,
    {
        let tag = match api_post_proof(&m[idx].1.post_proof) {
            Ok(t) => t,
            Err(_) => {
                // A well-formed replica set holds recognized tags only.
                assert(false);
                return out;
            },
        };
        out.push((m[idx].0, tag, copy_bytes(&m[idx].1.comm_r)));
        idx = idx + 1;
    }
    out
}

/// Resolves each claim's tag individually into the backend's pair shape,
/// keeping the bytes; fails on the first unrecognized tag. Claims with
/// different recognized tags may stand side by side.
pub fn post_proofs_to_api(proofs: &Vec<PoStProof>) -> (r: Result<
    Vec<(filecoin_proofs_api::RegisteredPoStProof, Vec<u8>)>,
    VerifierError,
>)
    ensures
        r is Ok <==> posts_supported(proofs@),
        r matches Ok(v) ==> v@.len() == proofs@.len() && (forall|j: int|
            0 <= j < proofs@.len() ==> (#[trigger] v@[j]).1@ == proofs@[j].proof_bytes@),
        !posts_supported(proofs@) ==> r == Err::<
            Vec<(filecoin_proofs_api::RegisteredPoStProof, Vec<u8>)>,
            VerifierError,
        >(VerifierError::UnsupportedProofType),
{
    let mut out: Vec<(filecoin_proofs_api::RegisteredPoStProof, Vec<u8>)> = Vec::new();
    let mut idx: usize = 0;
    while idx < proofs.len()
        invariant
            idx <= proofs@.len(),
            out@.len() == idx,
            forall|i: int| 0 <= i < idx ==> (#[trigger] proofs@[i]).post_proof.is_supported(),
            forall|i: int| 0 <= i < idx ==> (#[trigger] out@[i]).1@ == proofs@[i].proof_bytes@,
        decreases proofs@.len() - idx,
    {
        let tag = match api_post_proof(&proofs[idx].post_proof) {
            Ok(t) => t,
            Err(e) => {
                proof {
                    assert(!proofs@[idx as int].post_proof.is_supported());
                    assert(!posts_supported(proofs@));
                }
                return Err(e);
            },
        };
        out.push((tag, copy_bytes(&proofs[idx].proof_bytes)));
        idx = idx + 1;
    }
    Ok(out)
}

/// Full verification: every proof is checked through the proof backend.
pub enum FullVerifier {
    Full,
}

/// Verification of seal, winning PoSt and window PoSt proofs, and
/// derivation of winning PoSt sector challenges.
pub trait ProofVerifier {
    /// Verifies a single seal claim: that a sector was sealed by the
    /// prover it names.
    fn verify_seal(vi: &SealVerifyInfo) -> (r: Result<(), VerifierError>)
        requires
            vi.randomness.0@.len() == 32,
            vi.interactive_randomness.0@.len() == 32,
        ensures
            !replica_cid_ok(vi.sealed_cid) ==> r == Err::<(), VerifierError>(
                VerifierError::MalformedCommitment(CommitmentKind::Replica),
            ),
            replica_cid_ok(vi.sealed_cid) && !data_cid_ok(vi.unsealed_cid) ==> r == Err::<
                (),
                VerifierError,
            >(VerifierError::MalformedCommitment(CommitmentKind::Data)),
            replica_cid_ok(vi.sealed_cid) && data_cid_ok(vi.unsealed_cid)
                && !vi.registered_proof.is_supported() ==> r == Err::<(), VerifierError>(
                VerifierError::UnsupportedProofType,
            ),
            seal_decode_ok(*vi) ==> (r matches Err(e) ==> e == VerifierError::BackendRejected(
                ProofKind::Seal,
            ) || e is BackendInternal),
            r is Ok ==> seal_decode_ok(*vi),
    ;

    /// Verifies a batch of seal claims under one aggregate proof.
    fn verify_aggregate_seals(aggregate: &AggregateSealVerifyProofAndInfos) -> (r: Result<
        (),
        VerifierError,
    >)
        requires
            agg_randomness_wf(aggregate.infos@),
        ensures
            aggregate.infos@.len() == 0 ==> r == Err::<(), VerifierError>(
                VerifierError::InvalidPrecondition,
            ),
            aggregate.infos@.len() > 0 && !aggregate.seal_proof.is_supported() ==> r == Err::<
                (),
                VerifierError,
            >(VerifierError::UnsupportedProofType),
            forall|j: int|
                aggregate.infos@.len() > 0 && aggregate.seal_proof.is_supported() && 0 <= j
                    < aggregate.infos@.len() && !(#[trigger] agg_info_ok(aggregate.infos@[j])) && (
                forall|i: int| 0 <= i < j ==> agg_info_ok(aggregate.infos@[i])) ==> r == Err::<
                    (),
                    VerifierError,
                >(agg_info_error(aggregate.infos@[j])),
            aggregate.infos@.len() > 0 && aggregate.seal_proof.is_supported() && (forall|j: int|
                0 <= j < aggregate.infos@.len() ==> #[trigger] agg_info_ok(aggregate.infos@[j]))
                ==> (r matches Err(e) ==> e == VerifierError::BackendRejected(
                ProofKind::AggregateSeal,
            ) || e is BackendInternal || e == VerifierError::UnsupportedProofType),
            r is Ok ==> aggregate.infos@.len() > 0 && aggregate.seal_proof.is_supported()
                && aggregate.aggregate_proof.is_supported() && (forall|j: int|
                0 <= j < aggregate.infos@.len() ==> #[trigger] agg_info_ok(aggregate.infos@[j])),
            !aggregate.aggregate_proof.is_supported() ==> r is Err,
            aggregate.infos@.len() > 0 && aggregate.seal_proof.is_supported() && (forall|j: int|
                0 <= j < aggregate.infos@.len() ==> #[trigger] agg_info_ok(aggregate.infos@[j]))
                && !aggregate.aggregate_proof.is_supported() ==> (r matches Err(e) && (e
                == VerifierError::UnsupportedProofType || e is BackendInternal)),
    ;

    /// Verifies a winning proof of spacetime over the eligible challenge
    /// set.
    fn verify_winning_post(
        randomness: Randomness,
        proofs: &Vec<PoStProof>,
        challenge_sectors: &Vec<SectorInfo>,
        prover: u64,
    ) -> (r: Result<(), VerifierError>)
        requires
            randomness.0@.len() == 32,
        ensures
            forall|j: int|
                0 <= j < challenge_sectors@.len() && !(#[trigger] entry_ok(
                    challenge_sectors@[j],
                    ProofType::Winning,
                )) && (forall|i: int|
                    0 <= i < j ==> entry_ok(challenge_sectors@[i], ProofType::Winning)) ==> r
                    == Err::<(), VerifierError>(entry_error(
                    challenge_sectors@[j],
                    ProofType::Winning,
                )),
            (forall|j: int|
                0 <= j < challenge_sectors@.len() ==> #[trigger] entry_ok(
                    challenge_sectors@[j],
                    ProofType::Winning,
                )) ==> (r matches Err(e) ==> e == VerifierError::BackendRejected(
                ProofKind::WinningPost,
            ) || e is BackendInternal),
            r is Ok ==> (forall|j: int|
                0 <= j < challenge_sectors@.len() ==> #[trigger] entry_ok(
                    challenge_sectors@[j],
                    ProofType::Winning,
                )),
    ;

    /// Verifies a window proof of spacetime, possibly spanning several
    /// partitions with different proof types.
    fn verify_window_post(
        randomness: Randomness,
        proofs: &Vec<PoStProof>,
        challenge_sectors: &Vec<SectorInfo>,
        prover: u64,
    ) -> (r: Result<(), VerifierError>)
        requires
            randomness.0@.len() == 32,
        ensures
            forall|j: int|
                0 <= j < challenge_sectors@.len() && !(#[trigger] entry_ok(
                    challenge_sectors@[j],
                    ProofType::Window,
                )) && (forall|i: int|
                    0 <= i < j ==> entry_ok(challenge_sectors@[i], ProofType::Window)) ==> r
                    == Err::<(), VerifierError>(entry_error(
                    challenge_sectors@[j],
                    ProofType::Window,
                )),
            (forall|j: int|
                0 <= j < challenge_sectors@.len() ==> #[trigger] entry_ok(
                    challenge_sectors@[j],
                    ProofType::Window,
                )) && !posts_supported(proofs@) ==> r == Err::<(), VerifierError>(
                VerifierError::UnsupportedProofType,
            ),
            (forall|j: int|
                0 <= j < challenge_sectors@.len() ==> #[trigger] entry_ok(
                    challenge_sectors@[j],
                    ProofType::Window,
                )) && posts_supported(proofs@) ==> (r matches Err(e) ==> e
                == VerifierError::BackendRejected(ProofKind::WindowPost) || e is BackendInternal),
            r is Ok ==> posts_supported(proofs@) && (forall|j: int|
                0 <= j < challenge_sectors@.len() ==> #[trigger] entry_ok(
                    challenge_sectors@[j],
                    ProofType::Window,
                )),
    ;

    /// Derives the ordered challenge indices for a winning proof: a pure
    /// function of the proof type, the canonicalized randomness, the
    /// eligible-sector count and the prover identity, every index below
    /// the count. For a recognized Winning tag and a positive count the
    /// derivation always succeeds: the canonicalized randomness and the
    /// derived prover identity are valid field elements, and the
    /// derivation itself is plain hashing.
    fn generate_winning_post_sector_challenge(
        proof_type: PoStProofTag,
        prover_id: u64,
        randomness: Randomness,
        eligible_sector_count: u64,
    ) -> (r: Result<Vec<u64>, VerifierError>)
        requires
            randomness.0@.len() == 32,
        ensures
            !proof_type.is_supported() ==> r == Err::<Vec<u64>, VerifierError>(
                VerifierError::UnsupportedProofType,
            ),
            proof_type.is_supported() ==> (r matches Err(e) ==> e is BackendInternal),
            r matches Ok(v) ==> proof_type.is_supported() && v@ == winning_challenge_seq(
                proof_type.code(),
                masked(randomness.0@),
                eligible_sector_count,
                prover_id_bytes(prover_id),
            ) && (forall|i: int| 0 <= i < v@.len() ==> v@[i] < eligible_sector_count),
            eligible_sector_count == 0 ==> r is Err,
            proof_type.is_winning() && eligible_sector_count > 0 ==> r is Ok,
    ;
}

impl ProofVerifier for FullVerifier {
    fn verify_seal(vi: &SealVerifyInfo) -> (r: Result<(), VerifierError>) {
        let comm_r = match cid_to_replica_commitment_v1(&vi.sealed_cid) {
            Ok(c) => c,
            Err(e) => {
                return Err(e);
            },
        };
        let comm_d = match cid_to_data_commitment_v1(&vi.unsealed_cid) {
            Ok(c) => c,
            Err(e) => {
                return Err(e);
            },
        };
        let prover_id = prover_id_from_u64(vi.sector_id.miner);
        let spt = match api_seal_proof(&vi.registered_proof) {
            Ok(t) => t,
            Err(e) => {
                return Err(e);
            },
        };
        let outcome = backend_verify_seal(
            spt,
            &comm_r,
            &comm_d,
            &prover_id,
            vi.sector_id.number,
            &vi.randomness.0,
            &vi.interactive_randomness.0,
            &vi.proof,
        );
        map_backend_outcome(ProofKind::Seal, outcome)
    }

    fn verify_aggregate_seals(aggregate: &AggregateSealVerifyProofAndInfos) -> (r: Result<
        (),
        VerifierError,
    >) {
        if aggregate.infos.len() == 0 {
            return Err(VerifierError::InvalidPrecondition);
        }
        let spt = match api_seal_proof(&aggregate.seal_proof) {
            Ok(t) => t,
            Err(e) => {
                return Err(e);
            },
        };
        let prover_id = prover_id_from_u64(aggregate.miner);
        let inputs = match build_aggregation_inputs(&aggregate.infos) {
            Ok(v) => v,
            Err(e) => {
                return Err(e);
            },
        };
        proof {
            assert forall|i: int| 0 <= i < inputs@.len() implies (#[trigger] inputs@[i]).comm_r@.len()
                == 32 && inputs@[i].comm_d@.len() == 32 && inputs@[i].ticket@.len() == 32
                && inputs@[i].seed@.len() == 32 by {
                assert(agg_input_matches(inputs@[i], aggregate.infos@[i]));
                assert(agg_info_ok(aggregate.infos@[i]));
                assert(aggregate.infos@[i].randomness.0@.len() == 32);
            }
        }
        let derived = match derive_seal_inputs_batch(spt, &inputs, &prover_id) {
            Ok(v) => v,
            Err(m) => {
                return Err(VerifierError::BackendInternal(m));
            },
        };
        let commit_inputs = flatten_in_order(derived);
        let comm_rs = extract_comm_rs(&inputs);
        let seeds = extract_seeds(&inputs);
        let agg = match api_aggregate_proof(&aggregate.aggregate_proof) {
            Ok(t) => t,
            Err(e) => {
                return Err(e);
            },
        };
        proof {
            assert forall|i: int| 0 <= i < comm_rs@.len() implies (#[trigger] comm_rs@[i])@.len()
                == 32 by {
                assert(comm_rs@[i]@ == inputs@[i].comm_r@);
            }
            assert forall|i: int| 0 <= i < seeds@.len() implies (#[trigger] seeds@[i])@.len()
                == 32 by {
                assert(seeds@[i]@ == inputs@[i].seed@);
            }
        }
        let outcome = backend_verify_aggregate_seals(
            spt,
            agg,
            &aggregate.proof,
            &comm_rs,
            &seeds,
            commit_inputs,
        );
        map_backend_outcome(ProofKind::AggregateSeal, outcome)
    }

    fn verify_winning_post(
        randomness: Randomness,
        proofs: &Vec<PoStProof>,
        challenge_sectors: &Vec<SectorInfo>,
        prover: u64,
    ) -> (r: Result<(), VerifierError>) {
        let masked_randomness = canonicalize_randomness(&randomness);
        let replicas = match to_fil_public_replica_infos(challenge_sectors, ProofType::Winning) {
            Ok(m) => m,
            Err(e) => {
                return Err(e);
            },
        };
        let proof_bytes = concat_proof_bytes(proofs);
        let prover_id = prover_id_from_u64(prover);
        let api_replicas = replicas_to_api(&replicas);
        let outcome = backend_verify_winning_post(
            &masked_randomness.0,
            &proof_bytes,
            &api_replicas,
            &prover_id,
        );
        map_backend_outcome(ProofKind::WinningPost, outcome)
    }

    fn verify_window_post(
        randomness: Randomness,
        proofs: &Vec<PoStProof>,
        challenge_sectors: &Vec<SectorInfo>,
        prover: u64,
    ) -> (r: Result<(), VerifierError>) {
        let masked_randomness = canonicalize_randomness(&randomness);
        let replicas = match to_fil_public_replica_infos(challenge_sectors, ProofType::Window) {
            Ok(m) => m,
            Err(e) => {
                return Err(e);
            },
        };
        let api_proofs = match post_proofs_to_api(proofs) {
            Ok(v) => v,
            Err(e) => {
                return Err(e);
            },
        };
        let prover_id = prover_id_from_u64(prover);
        let api_replicas = replicas_to_api(&replicas);
        let outcome = backend_verify_window_post(
            &masked_randomness.0,
            &api_proofs,
            &api_replicas,
            &prover_id,
        );
        map_backend_outcome(ProofKind::WindowPost, outcome)
    }

    fn generate_winning_post_sector_challenge(
        proof_type: PoStProofTag,
        prover_id: u64,
        randomness: Randomness,
        eligible_sector_count: u64,
    ) -> (r: Result<Vec<u64>, VerifierError>) {
        let masked_randomness = canonicalize_randomness(&randomness);
        match proof_type {
            PoStProofTag::Invalid(_) => Err(VerifierError::UnsupportedProofType),
            _ => {
                let prover = prover_id_from_u64(prover_id);
                proof {
                    lemma_prover_id_high_byte(prover_id);
                    let b = randomness.0@[31];
                    assert(b & 0x3f < 0x40) by (bit_vector);
                    assert(masked_randomness.0@[31] == (randomness.0@[31] & 0x3f));
                }
                match backend_winning_challenges(
                    &proof_type,
                    &masked_randomness.0,
                    eligible_sector_count,
                    &prover,
                ) {
                    Ok(v) => Ok(v),
                    Err(m) => Err(VerifierError::BackendInternal(m)),
                }
            },
        }
    }
}

} // verus!
