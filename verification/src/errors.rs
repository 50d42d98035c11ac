//! Typed failures of the round functions.
//!
//! Every round function returns a [`StageError`] instead of aborting: it names the
//! round, the kind of failure and, where one peer is responsible, that peer's
//! identifier, so that an orchestrator can exclude the peer and start over.

use vstd::prelude::*;

verus! {

/// The rounds of the protocol, in the order in which they run.
#[derive(Clone, Copy, Debug, PartialEq, Eq, Structural)]
pub enum Stage {
    KeyGen1,
    KeyGen2,
    KeyGen3,
    KeyGen4,
    Reconstruct,
    Sign1,
    Sign2,
    Sign3,
    Sign4,
    Sign5,
    Sign6,
    Sign7,
    Sign8,
    Sign9,
    Tweak,
}

/// What went wrong in a round.
#[derive(Clone, Copy, Debug, PartialEq, Eq, Structural)]
pub enum ErrorKind {
    /// A list of the input has the wrong length, or a value that must be present
    /// or non-zero is not.
    MalformedInput,
    /// Threshold, party count, party identifiers or the signing subset do not fit
    /// together.
    ProtocolShape,
    /// A commitment did not open, a proof did not verify, or a recomputed value
    /// differs from the one received.
    Verification,
}

/// The peer that a failure is attributed to.
#[derive(Clone, Copy, Debug, PartialEq, Eq, Structural)]
pub enum Culprit {
    /// The failing check covers several peers, or none.
    Unknown,
    /// The peer with this identifier (counted from 1).
    Party(u16),
}

/// A failure of one round.
#[derive(Clone, Copy, Debug, PartialEq, Eq, Structural)]
pub struct StageError {
    pub stage: Stage,
    pub kind: ErrorKind,
    pub culprit: Culprit,
}

impl StageError {
    /// A malformed input of `stage`.
    pub open spec fn malformed_spec(stage: Stage) -> StageError {
        StageError { stage, kind: ErrorKind::MalformedInput, culprit: Culprit::Unknown }
    }

    /// A malformed input of `stage` that the peer `party` sent.
    pub open spec fn malformed_by_spec(stage: Stage, party: u16) -> StageError {
        StageError { stage, kind: ErrorKind::MalformedInput, culprit: Culprit::Party(party) }
    }

    /// A violation of the protocol's shape in `stage`.
    pub open spec fn shape_spec(stage: Stage) -> StageError {
        StageError { stage, kind: ErrorKind::ProtocolShape, culprit: Culprit::Unknown }
    }

    /// A failed verification in `stage` that no single peer answers for.
    pub open spec fn rejected_spec(stage: Stage) -> StageError {
        StageError { stage, kind: ErrorKind::Verification, culprit: Culprit::Unknown }
    }

    /// A failed verification in `stage` of what the peer `party` sent.
    pub open spec fn blamed_spec(stage: Stage, party: u16) -> StageError {
        StageError { stage, kind: ErrorKind::Verification, culprit: Culprit::Party(party) }
    }

    #[verifier::when_used_as_spec(malformed_spec)]
    pub fn malformed(stage: Stage) -> (e: StageError)
        ensures
            e == Self::malformed_spec(stage),
    {
        StageError { stage, kind: ErrorKind::MalformedInput, culprit: Culprit::Unknown }
    }

    #[verifier::when_used_as_spec(malformed_by_spec)]
    pub fn malformed_by(stage: Stage, party: u16) -> (e: StageError)
        ensures
            e == Self::malformed_by_spec(stage, party),
    {
        StageError { stage, kind: ErrorKind::MalformedInput, culprit: Culprit::Party(party) }
    }

    #[verifier::when_used_as_spec(shape_spec)]
    pub fn shape(stage: Stage) -> (e: StageError)
        ensures
            e == Self::shape_spec(stage),
    {
        StageError { stage, kind: ErrorKind::ProtocolShape, culprit: Culprit::Unknown }
    }

    #[verifier::when_used_as_spec(rejected_spec)]
    pub fn rejected(stage: Stage) -> (e: StageError)
        ensures
            e == Self::rejected_spec(stage),
    {
        StageError { stage, kind: ErrorKind::Verification, culprit: Culprit::Unknown }
    }

    #[verifier::when_used_as_spec(blamed_spec)]
    pub fn blamed(stage: Stage, party: u16) -> (e: StageError)
        ensures
            e == Self::blamed_spec(stage, party),
    {
        StageError { stage, kind: ErrorKind::Verification, culprit: Culprit::Party(party) }
    }

    /// Whether the failure is attributed to one peer.
    pub fn names_culprit(&self) -> (b: bool)
        ensures
            b == (self.culprit is Party),
    {
        match self.culprit {
            Culprit::Party(_) => true,
            Culprit::Unknown => false,
        }
    }
}

} // verus!
