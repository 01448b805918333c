use vstd::prelude::*;
use crate::error::{CommitmentKind, VerifierError};
use crate::randomness::copy_bytes;
use crate::types::Cid;

verus! {

/// Content codec of an unsealed-data commitment.
pub const FIL_COMMITMENT_UNSEALED: u64 = 0xf101;

/// Content codec of a sealed-replica commitment.
pub const FIL_COMMITMENT_SEALED: u64 = 0xf102;

/// Multihash code of the truncated, padded sha2-256 digest that binds an
/// unsealed-data commitment.
pub const SHA2_256_TRUNC254_PADDED: u64 = 0x1012;

/// Multihash code of the Poseidon digest that binds a sealed-replica
/// commitment.
pub const POSEIDON_BLS12_381_A2_FC1: u64 = 0xb401;

/// True when the identifier encodes a sealed-replica commitment: the
/// sealed codec, the Poseidon multihash, and a 32-byte digest.
pub open spec fn replica_cid_ok(c: Cid) -> bool {
    c.codec == FIL_COMMITMENT_SEALED && c.hash_code == POSEIDON_BLS12_381_A2_FC1
        && c.digest@.len() == 32
}

/// True when the identifier encodes an unsealed-data commitment: the
/// unsealed codec, the padded sha2-256 multihash, and a 32-byte digest.
pub open spec fn data_cid_ok(c: Cid) -> bool {
    c.codec == FIL_COMMITMENT_UNSEALED && c.hash_code == SHA2_256_TRUNC254_PADDED
        && c.digest@.len() == 32
}

/// Decodes a sealed-replica commitment digest out of a content
/// identifier; fails when the identifier does not encode one.
pub fn cid_to_replica_commitment_v1(c: &Cid) -> (r: Result<Vec<u8>, VerifierError>)
    ensures
        replica_cid_ok(*c) ==> (r matches Ok(d) && d@ == c.digest@),
        !replica_cid_ok(*c) ==> r == Err::<Vec<u8>, VerifierError>(
            VerifierError::MalformedCommitment(CommitmentKind::Replica),
        ),
{
    if c.codec == FIL_COMMITMENT_SEALED && c.hash_code == POSEIDON_BLS12_381_A2_FC1
        && c.digest.len() == 32 {
        Ok(copy_bytes(&c.digest))
    } else {
        Err(VerifierError::MalformedCommitment(CommitmentKind::Replica))
    }
}

/// Decodes an unsealed-data commitment digest out of a content
/// identifier; fails when the identifier does not encode one.
pub fn cid_to_data_commitment_v1(c: &Cid) -> (r: Result<Vec<u8>, VerifierError>)
    ensures
        data_cid_ok(*c) ==> (r matches Ok(d) && d@ == c.digest@),
        !data_cid_ok(*c) ==> r == Err::<Vec<u8>, VerifierError>(
            VerifierError::MalformedCommitment(CommitmentKind::Data),
        ),
{
    if c.codec == FIL_COMMITMENT_UNSEALED && c.hash_code == SHA2_256_TRUNC254_PADDED
        && c.digest.len() == 32 {
        Ok(copy_bytes(&c.digest))
    } else {
        Err(VerifierError::MalformedCommitment(CommitmentKind::Data))
    }
}

} // verus!
