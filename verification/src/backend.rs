use vstd::prelude::*;
use rayon::iter::IntoParallelRefIterator;
use filecoin_proofs_api::RegisteredAggregationProof as ApiAggregationProof;
use filecoin_proofs_api::RegisteredPoStProof as ApiPoStProof;
use filecoin_proofs_api::RegisteredSealProof as ApiSealProof;
use rayon::iter::ParallelIterator;
use crate::error::VerifierError;
use crate::types::{AggregationInputs, AggregateProofTag, PoStProofTag,
    SealProofTag};

verus! {

#[verifier::external_type_specification]
#[verifier::external_body]
pub struct ExSealProofTag(filecoin_proofs_api::RegisteredSealProof);

#[verifier::external_type_specification]
#[verifier::external_body]
pub struct ExPoStProofTag(filecoin_proofs_api::RegisteredPoStProof);

#[verifier::external_type_specification]
#[verifier::external_body]
pub struct ExRegisteredAggregationProof(filecoin_proofs_api::RegisteredAggregationProof);

#[verifier::external_type_specification]
#[verifier::external_body]
pub struct ExScalar(blstrs::Scalar);

/// Relies on `<[u8; 32]>::copy_from_slice`: copies a 32-byte buffer into
/// a fixed-size array, element for element.
#[verifier::external_body]
fn to_arr(v: &Vec<u8>) -> (r: [u8; 32])
    requires
        v@.len() == 32,
    ensures
        r@ == v@,
{
    let mut a = [0u8; 32];
    a.copy_from_slice(v.as_slice());
    a
}

/// Relies on the one-to-one correspondence between the library's seal
/// proof tags and `filecoin_proofs_api::RegisteredSealProof`; pure
/// conversion, each recognized tag to the backend tag of the same sector
/// size and protocol revision.
#[verifier::external_body]
pub fn api_seal_proof(tag: &SealProofTag) -> (r: Result<
    filecoin_proofs_api::RegisteredSealProof,
    VerifierError,
>)
    ensures
        r is Ok <==> tag.is_supported(),
        (r matches Err(e) ==> e == VerifierError::UnsupportedProofType),
{
    match tag {
        SealProofTag::StackedDRG2KiBV1 => Ok(ApiSealProof::StackedDrg2KiBV1),
        SealProofTag::StackedDRG8MiBV1 => Ok(ApiSealProof::StackedDrg8MiBV1),
        SealProofTag::StackedDRG512MiBV1 => Ok(ApiSealProof::StackedDrg512MiBV1),
        SealProofTag::StackedDRG32GiBV1 => Ok(ApiSealProof::StackedDrg32GiBV1),
        SealProofTag::StackedDRG64GiBV1 => Ok(ApiSealProof::StackedDrg64GiBV1),
        SealProofTag::StackedDRG2KiBV1P1 => Ok(ApiSealProof::StackedDrg2KiBV1_1),
        SealProofTag::StackedDRG8MiBV1P1 => Ok(ApiSealProof::StackedDrg8MiBV1_1),
        SealProofTag::StackedDRG512MiBV1P1 => Ok(ApiSealProof::StackedDrg512MiBV1_1),
        SealProofTag::StackedDRG32GiBV1P1 => Ok(ApiSealProof::StackedDrg32GiBV1_1),
        SealProofTag::StackedDRG64GiBV1P1 => Ok(ApiSealProof::StackedDrg64GiBV1_1),
        SealProofTag::Invalid(_) => Err(VerifierError::UnsupportedProofType),
    }
}

/// Relies on the one-to-one correspondence between the library's PoSt
/// proof tags and `filecoin_proofs_api::RegisteredPoStProof`; pure
/// conversion, each recognized tag to the backend tag of the same
/// variant and sector size.
#[verifier::external_body]
pub fn api_post_proof(tag: &PoStProofTag) -> (r: Result<
    filecoin_proofs_api::RegisteredPoStProof,
    VerifierError,
>)
    ensures
        r is Ok <==> tag.is_supported(),
        (r matches Err(e) ==> e == VerifierError::UnsupportedProofType),
{
    match tag {
        PoStProofTag::StackedDRGWinning2KiBV1 => Ok(ApiPoStProof::StackedDrgWinning2KiBV1),
        PoStProofTag::StackedDRGWinning8MiBV1 => Ok(ApiPoStProof::StackedDrgWinning8MiBV1),
        PoStProofTag::StackedDRGWinning512MiBV1 => Ok(ApiPoStProof::StackedDrgWinning512MiBV1),
        PoStProofTag::StackedDRGWinning32GiBV1 => Ok(ApiPoStProof::StackedDrgWinning32GiBV1),
        PoStProofTag::StackedDRGWinning64GiBV1 => Ok(ApiPoStProof::StackedDrgWinning64GiBV1),
        PoStProofTag::StackedDRGWindow2KiBV1 => Ok(ApiPoStProof::StackedDrgWindow2KiBV1),
        PoStProofTag::StackedDRGWindow8MiBV1 => Ok(ApiPoStProof::StackedDrgWindow8MiBV1),
        PoStProofTag::StackedDRGWindow512MiBV1 => Ok(ApiPoStProof::StackedDrgWindow512MiBV1),
        PoStProofTag::StackedDRGWindow32GiBV1 => Ok(ApiPoStProof::StackedDrgWindow32GiBV1),
        PoStProofTag::StackedDRGWindow64GiBV1 => Ok(ApiPoStProof::StackedDrgWindow64GiBV1),
        PoStProofTag::Invalid(_) => Err(VerifierError::UnsupportedProofType),
    }
}

/// Relies on the one-to-one correspondence between the library's
/// aggregation tags and `filecoin_proofs_api::RegisteredAggregationProof`.
#[verifier::external_body]
pub fn api_aggregate_proof(tag: &AggregateProofTag) -> (r: Result<
    filecoin_proofs_api::RegisteredAggregationProof,
    VerifierError,
>)
    ensures
        r is Ok <==> tag.is_supported(),
        (r matches Err(e) ==> e == VerifierError::UnsupportedProofType),
{
    match tag {
        AggregateProofTag::SnarkPackV1 => Ok(ApiAggregationProof::SnarkPackV1),
        AggregateProofTag::SnarkPackV2 => Ok(ApiAggregationProof::SnarkPackV2),
        AggregateProofTag::Invalid(_) => Err(VerifierError::UnsupportedProofType),
    }
}

/// Relies on `filecoin_proofs_api::seal::verify_seal`: runs the proof
/// backend on the given primitive inputs. `Ok` carries the backend's
/// boolean answer; an error is the backend's own failure to execute.
/// Nothing is promised of the answer: it depends on locally cached
/// proving parameters.
#[verifier::external_body]
pub fn backend_verify_seal(
    spt: filecoin_proofs_api::RegisteredSealProof,
    comm_r: &Vec<u8>,
    comm_d: &Vec<u8>,
    prover_id: &Vec<u8>,
    sector_number: u64,
    ticket: &Vec<u8>,
    seed: &Vec<u8>,
    proof_bytes: &Vec<u8>,
) -> (r: Result<bool, String>)
    requires
        comm_r@.len() == 32,
        comm_d@.len() == 32,
        prover_id@.len() == 32,
        ticket@.len() == 32,
        seed@.len() == 32,
{
    let sector = filecoin_proofs_api::SectorId::from(sector_number);
    let r = filecoin_proofs_api::seal::verify_seal(
        spt, to_arr(comm_r), to_arr(comm_d), to_arr(prover_id), sector,
        to_arr(ticket), to_arr(seed), proof_bytes.as_slice(),
    );
    r.map_err(|e| format!("{e:#}"))
}

/// Relies on rayon's indexed parallel map and on
/// `filecoin_proofs_api::seal::get_seal_inputs`: derives each entry's
/// proof-system input vector concurrently, one independent task per
/// entry. Collecting an indexed parallel iterator into `Result<Vec<_>>`
/// keeps results in input order whatever the completion order, stops at
/// the first error and discards stray results of later tasks.
#[verifier::external_body]
pub fn derive_seal_inputs_batch(
    spt: filecoin_proofs_api::RegisteredSealProof,
    entries: &Vec<AggregationInputs>,
    prover_id: &Vec<u8>,
) -> (r: Result<Vec<Vec<Vec<blstrs::Scalar>>>, String>)
    requires
        prover_id@.len() == 32,
        forall|i: int|
            0 <= i < entries@.len() ==> (#[trigger] entries@[i]).comm_r@.len() == 32
                && entries@[i].comm_d@.len() == 32 && entries@[i].ticket@.len() == 32
                && entries@[i].seed@.len() == 32,
    ensures
        r matches Ok(v) ==> v@.len() == entries@.len(),
{
    let prover = to_arr(prover_id);
    entries.par_iter().map(
        |e| filecoin_proofs_api::seal::get_seal_inputs(
            spt, to_arr(&e.comm_r), to_arr(&e.comm_d), prover,
            filecoin_proofs_api::SectorId::from(e.sector_number),
            to_arr(&e.ticket), to_arr(&e.seed),
        ).map_err(|er| format!("{er:#}")),
    ).collect()
}

/// Relies on `filecoin_proofs_api::seal::verify_aggregate_seal_commit_proofs`:
/// runs the backend's aggregate verification over the ordered commitment
/// and seed arrays and the combined input list. `Ok` carries the
/// backend's boolean answer; nothing is promised of it.
#[verifier::external_body]
pub fn backend_verify_aggregate_seals(
    spt: filecoin_proofs_api::RegisteredSealProof,
    agg: filecoin_proofs_api::RegisteredAggregationProof,
    proof_bytes: &Vec<u8>,
    comm_rs: &Vec<Vec<u8>>,
    seeds: &Vec<Vec<u8>>,
    commit_inputs: Vec<Vec<blstrs::Scalar>>,
) -> (r: Result<bool, String>)
    requires
        forall|i: int| 0 <= i < comm_rs@.len() ==> (#[trigger] comm_rs@[i])@.len() == 32,
        forall|i: int| 0 <= i < seeds@.len() ==> (#[trigger] seeds@[i])@.len() == 32,
{
    let crs: Vec<[u8; 32]> = comm_rs.iter().map(to_arr).collect();
    let sds: Vec<[u8; 32]> = seeds.iter().map(to_arr).collect();
    let r = filecoin_proofs_api::seal::verify_aggregate_seal_commit_proofs(
        spt, agg, proof_bytes.clone(), &crs, &sds, commit_inputs,
    );
    r.map_err(|e| format!("{e:#}"))
}

/// Relies on `filecoin_proofs_api::post::verify_winning_post`: runs the
/// backend over the key-ordered replica map rebuilt from the given
/// entries (sorted and distinct, so the map holds exactly them). `Ok`
/// carries the backend's boolean answer; nothing is promised of it.
#[verifier::external_body]
pub fn backend_verify_winning_post(
    randomness: &Vec<u8>,
    proof_bytes: &Vec<u8>,
    replicas: &Vec<(u64, filecoin_proofs_api::RegisteredPoStProof, Vec<u8>)>,
    prover_id: &Vec<u8>,
) -> (r: Result<bool, String>)
    requires
        randomness@.len() == 32,
        prover_id@.len() == 32,
        forall|i: int| 0 <= i < replicas@.len() ==> (#[trigger] replicas@[i]).2@.len() == 32,
{
    let map: std::collections::BTreeMap<_, _> = replicas.iter().map(
        |(id, t, c)| (filecoin_proofs_api::SectorId::from(*id),
            filecoin_proofs_api::PublicReplicaInfo::new(*t, to_arr(c))),
    ).collect();
    let r = filecoin_proofs_api::post::verify_winning_post(
        &to_arr(randomness), proof_bytes.as_slice(), &map, to_arr(prover_id),
    );
    r.map_err(|e| format!("{e:#}"))
}

/// Relies on `filecoin_proofs_api::post::verify_window_post`: runs the
/// backend over the per-partition (proof type, bytes) pairs and the
/// key-ordered replica map rebuilt from the given entries. `Ok` carries
/// the backend's boolean answer; nothing is promised of it.
#[verifier::external_body]
pub fn backend_verify_window_post(
    randomness: &Vec<u8>,
    proofs: &Vec<(filecoin_proofs_api::RegisteredPoStProof, Vec<u8>)>,
    replicas: &Vec<(u64, filecoin_proofs_api::RegisteredPoStProof, Vec<u8>)>,
    prover_id: &Vec<u8>,
) -> (r: Result<bool, String>)
    requires
        randomness@.len() == 32,
        prover_id@.len() == 32,
        forall|i: int| 0 <= i < replicas@.len() ==> (#[trigger] replicas@[i]).2@.len() == 32,
{
    let map: std::collections::BTreeMap<_, _> = replicas.iter().map(
        |(id, t, c)| (filecoin_proofs_api::SectorId::from(*id),
            filecoin_proofs_api::PublicReplicaInfo::new(*t, to_arr(c))),
    ).collect();
    let prfs: Vec<(ApiPoStProof, &[u8])> = proofs.iter().map(|(t, b)| (*t, b.as_slice())).collect();
    let r = filecoin_proofs_api::post::verify_window_post(
        &to_arr(randomness), &prfs, &map, to_arr(prover_id),
    );
    r.map_err(|e| format!("{e:#}"))
}

/// The challenge indices the backend derives for a winning proof type,
/// canonicalized randomness, eligible-sector count and prover identity.
/// The derivation hashes exactly these values, so the result is a
/// function of them alone.
pub uninterp spec fn winning_challenge_seq(
    tag_code: int,
    randomness: Seq<u8>,
    sector_set_len: u64,
    prover: Seq<u8>,
) -> Seq<u64>;

/// Relies on `filecoin_proofs_api::post::generate_winning_post_sector_challenge`:
/// a deterministic derivation, by hashing, from exactly the given
/// arguments; its documentation bounds every returned index by
/// `sector_set_len`, and it reports an empty sector set as an error.
/// Its only other error exits are a non-Winning tag and a buffer that is
/// no canonical field element; a 32-byte buffer whose final byte is
/// below 0x40 always is one, so for a Winning tag, a positive count and
/// such buffers, success is owed.
#[verifier::external_body]
pub fn backend_winning_challenges(
    tag: &PoStProofTag,
    randomness: &Vec<u8>,
    sector_set_len: u64,
    prover_id: &Vec<u8>,
) -> (r: Result<Vec<u64>, String>)
    requires
        tag.is_supported(),
        randomness@.len() == 32,
        prover_id@.len() == 32,
    ensures
        r matches Ok(v) ==> v@ == winning_challenge_seq(
            tag.code(),
            randomness@,
            sector_set_len,
            prover_id@,
        ),
        r matches Ok(v) ==> forall|i: int| 0 <= i < v@.len() ==> v@[i] < sector_set_len,
        sector_set_len == 0 ==> r is Err,
        tag.is_winning() && sector_set_len > 0 && randomness@[31] < 0x40 && prover_id@[31] < 0x40
            ==> r is Ok,
{
    let t = match api_post_proof(tag) {
        Ok(t) => t,
        Err(_) => return Err(String::from("unsupported PoSt proof type")),
    };
    let r = filecoin_proofs_api::post::generate_winning_post_sector_challenge(
        t, &to_arr(randomness), sector_set_len, to_arr(prover_id),
    );
    r.map_err(|e| format!("{e:#}"))
}

} // verus!
