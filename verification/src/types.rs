use vstd::prelude::*;
use crate::error::VerifierError;

verus! {

/// Raw randomness drawn from the chain: 32 bytes that are not yet a valid
/// scalar-field element until canonicalized.
pub struct Randomness(pub Vec<u8>);

/// A content identifier, reduced to the parts that commitment decoding
/// reads: the content codec, the multihash code, and the multihash digest.
pub struct Cid {
    pub codec: u64,
    pub hash_code: u64,
    pub digest: Vec<u8>,
}

/// Identifies one sector of one miner: the miner's actor id and the
/// miner-relative sector number.
#[derive(Debug, Clone, Copy, PartialEq, Eq, Structural)]
pub struct SectorID {
    pub miner: u64,
    pub number: u64,
}

/// Registered seal proof types: five sector sizes, each in the first and
/// the revised protocol revision, plus the catch-all for tags that no
/// backend recognizes.
#[derive(Debug, Clone, Copy, PartialEq, Eq, Structural)]
pub enum SealProofTag {
    StackedDRG2KiBV1,
    StackedDRG8MiBV1,
    StackedDRG512MiBV1,
    StackedDRG32GiBV1,
    StackedDRG64GiBV1,
    StackedDRG2KiBV1P1,
    StackedDRG8MiBV1P1,
    StackedDRG512MiBV1P1,
    StackedDRG32GiBV1P1,
    StackedDRG64GiBV1P1,
    Invalid(i64),
}

/// Registered proof-of-spacetime proof types, in the Winning and Window
/// variants, plus the catch-all for unrecognized tags.
#[derive(Debug, Clone, Copy, PartialEq, Eq, Structural)]
pub enum PoStProofTag {
    StackedDRGWinning2KiBV1,
    StackedDRGWinning8MiBV1,
    StackedDRGWinning512MiBV1,
    StackedDRGWinning32GiBV1,
    StackedDRGWinning64GiBV1,
    StackedDRGWindow2KiBV1,
    StackedDRGWindow8MiBV1,
    StackedDRGWindow512MiBV1,
    StackedDRGWindow32GiBV1,
    StackedDRGWindow64GiBV1,
    Invalid(i64),
}

/// Registered aggregation schemes for batched seal proofs.
#[derive(Debug, Clone, Copy, PartialEq, Eq, Structural)]
pub enum AggregateProofTag {
    SnarkPackV1,
    SnarkPackV2,
    Invalid(i64),
}

/// One seal claim: the proof-type tag, the two commitments, the sector,
/// the two randomness values and the proof bytes.
pub struct SealVerifyInfo {
    pub registered_proof: SealProofTag,
    pub sector_id: SectorID,
    pub sealed_cid: Cid,
    pub unsealed_cid: Cid,
    pub randomness: Randomness,
    pub interactive_randomness: Randomness,
    pub proof: Vec<u8>,
}

/// The per-sector part of an aggregate seal claim.
pub struct AggregateSealVerifyInfo {
    pub sector_number: u64,
    pub randomness: Randomness,
    pub interactive_randomness: Randomness,
    pub sealed_cid: Cid,
    pub unsealed_cid: Cid,
}

/// A batch of seal claims under one aggregate proof. The order of `infos`
/// defines the alignment between derived inputs, commitments and seeds.
pub struct AggregateSealVerifyProofAndInfos {
    pub miner: u64,
    pub seal_proof: SealProofTag,
    pub aggregate_proof: AggregateProofTag,
    pub proof: Vec<u8>,
    pub infos: Vec<AggregateSealVerifyInfo>,
}

/// The primitive inputs one aggregate entry contributes to input
/// derivation: both decoded commitments, the sector number, and the two
/// randomness values as ticket and seed.
pub struct AggregationInputs {
    pub comm_r: Vec<u8>,
    pub comm_d: Vec<u8>,
    pub sector_number: u64,
    pub ticket: Vec<u8>,
    pub seed: Vec<u8>,
}

/// One proof-of-spacetime claim: the proof-type tag and the raw bytes.
pub struct PoStProof {
    pub post_proof: PoStProofTag,
    pub proof_bytes: Vec<u8>,
}

/// One sector of a challenge set: the seal proof-type descriptor (from
/// which the PoSt variant is resolved), the sector number and the sealed
/// replica commitment identifier.
pub struct SectorInfo {
    pub proof: SealProofTag,
    pub sector_number: u64,
    pub sealed_cid: Cid,
}

/// The two proof-of-spacetime contexts a replica set can be built for.
#[derive(Debug, Clone, Copy, PartialEq, Eq, Structural)]
pub enum ProofType {
    Winning,
    Window,
}

impl SealProofTag {
    /// True of every tag the proof backend recognizes.
    pub open spec fn is_supported(self) -> bool {
        !(self is Invalid)
    }

    /// The Winning PoSt tag of the same sector size, if the descriptor
    /// resolves to one.
    pub open spec fn winning_post_tag(self) -> Option<PoStProofTag> {
        match self {
            SealProofTag::StackedDRG2KiBV1 | SealProofTag::StackedDRG2KiBV1P1 =>
                Some(PoStProofTag::StackedDRGWinning2KiBV1),
            SealProofTag::StackedDRG8MiBV1 | SealProofTag::StackedDRG8MiBV1P1 =>
                Some(PoStProofTag::StackedDRGWinning8MiBV1),
            SealProofTag::StackedDRG512MiBV1 | SealProofTag::StackedDRG512MiBV1P1 =>
                Some(PoStProofTag::StackedDRGWinning512MiBV1),
            SealProofTag::StackedDRG32GiBV1 | SealProofTag::StackedDRG32GiBV1P1 =>
                Some(PoStProofTag::StackedDRGWinning32GiBV1),
            SealProofTag::StackedDRG64GiBV1 | SealProofTag::StackedDRG64GiBV1P1 =>
                Some(PoStProofTag::StackedDRGWinning64GiBV1),
            SealProofTag::Invalid(_) => None,
        }
    }

    /// The Window PoSt tag of the same sector size, if the descriptor
    /// resolves to one.
    pub open spec fn window_post_tag(self) -> Option<PoStProofTag> {
        match self {
            SealProofTag::StackedDRG2KiBV1 | SealProofTag::StackedDRG2KiBV1P1 =>
                Some(PoStProofTag::StackedDRGWindow2KiBV1),
            SealProofTag::StackedDRG8MiBV1 | SealProofTag::StackedDRG8MiBV1P1 =>
                Some(PoStProofTag::StackedDRGWindow8MiBV1),
            SealProofTag::StackedDRG512MiBV1 | SealProofTag::StackedDRG512MiBV1P1 =>
                Some(PoStProofTag::StackedDRGWindow512MiBV1),
            SealProofTag::StackedDRG32GiBV1 | SealProofTag::StackedDRG32GiBV1P1 =>
                Some(PoStProofTag::StackedDRGWindow32GiBV1),
            SealProofTag::StackedDRG64GiBV1 | SealProofTag::StackedDRG64GiBV1P1 =>
                Some(PoStProofTag::StackedDRGWindow64GiBV1),
            SealProofTag::Invalid(_) => None,
        }
    }

    /// The PoSt tag for the given context, if the descriptor resolves.
    pub open spec fn post_tag(self, typ: ProofType) -> Option<PoStProofTag> {
        match typ {
            ProofType::Winning => self.winning_post_tag(),
            ProofType::Window => self.window_post_tag(),
        }
    }

    /// Resolves the descriptor to its Winning PoSt proof type; fails when
    /// there is no corresponding variant.
    pub fn registered_winning_post_proof(&self) -> (r: Result<PoStProofTag, VerifierError>)
        ensures
            match self.winning_post_tag() {
                Some(t) => r == Ok::<PoStProofTag, VerifierError>(t),
                None => r == Err::<PoStProofTag, VerifierError>(
                    VerifierError::UnsupportedProofType,
                ),
            },
    {
        match self {
            SealProofTag::StackedDRG2KiBV1 | SealProofTag::StackedDRG2KiBV1P1 =>
                Ok(PoStProofTag::StackedDRGWinning2KiBV1),
            SealProofTag::StackedDRG8MiBV1 | SealProofTag::StackedDRG8MiBV1P1 =>
                Ok(PoStProofTag::StackedDRGWinning8MiBV1),
            SealProofTag::StackedDRG512MiBV1 | SealProofTag::StackedDRG512MiBV1P1 =>
                Ok(PoStProofTag::StackedDRGWinning512MiBV1),
            SealProofTag::StackedDRG32GiBV1 | SealProofTag::StackedDRG32GiBV1P1 =>
                Ok(PoStProofTag::StackedDRGWinning32GiBV1),
            SealProofTag::StackedDRG64GiBV1 | SealProofTag::StackedDRG64GiBV1P1 =>
                Ok(PoStProofTag::StackedDRGWinning64GiBV1),
            SealProofTag::Invalid(_) => Err(VerifierError::UnsupportedProofType),
        }
    }

    /// Resolves the descriptor to its Window PoSt proof type; fails when
    /// there is no corresponding variant.
    pub fn registered_window_post_proof(&self) -> (r: Result<PoStProofTag, VerifierError>)
        ensures
            match self.window_post_tag() {
                Some(t) => r == Ok::<PoStProofTag, VerifierError>(t),
                None => r == Err::<PoStProofTag, VerifierError>(
                    VerifierError::UnsupportedProofType,
                ),
            },
    {
        match self {
            SealProofTag::StackedDRG2KiBV1 | SealProofTag::StackedDRG2KiBV1P1 =>
                Ok(PoStProofTag::StackedDRGWindow2KiBV1),
            SealProofTag::StackedDRG8MiBV1 | SealProofTag::StackedDRG8MiBV1P1 =>
                Ok(PoStProofTag::StackedDRGWindow8MiBV1),
            SealProofTag::StackedDRG512MiBV1 | SealProofTag::StackedDRG512MiBV1P1 =>
                Ok(PoStProofTag::StackedDRGWindow512MiBV1),
            SealProofTag::StackedDRG32GiBV1 | SealProofTag::StackedDRG32GiBV1P1 =>
                Ok(PoStProofTag::StackedDRGWindow32GiBV1),
            SealProofTag::StackedDRG64GiBV1 | SealProofTag::StackedDRG64GiBV1P1 =>
                Ok(PoStProofTag::StackedDRGWindow64GiBV1),
            SealProofTag::Invalid(_) => Err(VerifierError::UnsupportedProofType),
        }
    }
}

impl PoStProofTag {
    /// True of every tag the proof backend recognizes.
    pub open spec fn is_supported(self) -> bool {
        !(self is Invalid)
    }

    /// True of the Winning PoSt variants.
    pub open spec fn is_winning(self) -> bool {
        self is StackedDRGWinning2KiBV1 || self is StackedDRGWinning8MiBV1
            || self is StackedDRGWinning512MiBV1 || self is StackedDRGWinning32GiBV1
            || self is StackedDRGWinning64GiBV1
    }

    /// A distinct numeric code for each tag, used to state what the
    /// backend's challenge derivation depends on.
    pub open spec fn code(self) -> int {
        match self {
            PoStProofTag::StackedDRGWinning2KiBV1 => 0,
            PoStProofTag::StackedDRGWinning8MiBV1 => 1,
            PoStProofTag::StackedDRGWinning512MiBV1 => 2,
            PoStProofTag::StackedDRGWinning32GiBV1 => 3,
            PoStProofTag::StackedDRGWinning64GiBV1 => 4,
            PoStProofTag::StackedDRGWindow2KiBV1 => 5,
            PoStProofTag::StackedDRGWindow8MiBV1 => 6,
            PoStProofTag::StackedDRGWindow512MiBV1 => 7,
            PoStProofTag::StackedDRGWindow32GiBV1 => 8,
            PoStProofTag::StackedDRGWindow64GiBV1 => 9,
            PoStProofTag::Invalid(i) => 10 + i,
        }
    }
}

impl AggregateProofTag {
    /// True of every aggregation scheme the proof backend recognizes.
    pub open spec fn is_supported(self) -> bool {
        !(self is Invalid)
    }
}

} // verus!
