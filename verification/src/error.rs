use vstd::prelude::*;

verus! {

/// Which of the two commitments carried by a content identifier failed to
/// decode.
#[derive(Debug, Clone, Copy, PartialEq, Eq, Structural)]
pub enum CommitmentKind {
    Replica,
    Data,
}

/// The kind of proof a definitive backend rejection refers to.
#[derive(Debug, Clone, Copy, PartialEq, Eq, Structural)]
pub enum ProofKind {
    Seal,
    AggregateSeal,
    WinningPost,
    WindowPost,
}

/// Closed error taxonomy of the verification layer.
///
/// A `BackendRejected` value is a definitive negative result: the proof
/// backend ran and reported the proof invalid. A `BackendInternal` value
/// means the backend itself failed to execute and carries its diagnostic
/// text; the two are never conflated.
#[derive(Debug, Clone, PartialEq, Eq)]
pub enum VerifierError {
    /// A content identifier does not encode the expected commitment scheme.
    MalformedCommitment(CommitmentKind),
    /// A proof-type tag has no backend-recognized equivalent.
    UnsupportedProofType,
    /// An input violated a precondition, e.g. an empty sector sequence for
    /// aggregate verification.
    InvalidPrecondition,
    /// The backend ran and reported the proof as invalid.
    BackendRejected(ProofKind),
    /// The backend failed to execute; carries its diagnostic message.
    BackendInternal(String),
}

} // verus!
