//! The order of the rounds.
//!
//! The round functions are free-standing: each takes what it needs as its input.
//! An orchestrator that keeps a [`Progress`] for each party and each run learns
//! from it which round the party may enter next, and is refused any other.

use crate::errors::{Stage, StageError};
use vstd::prelude::*;

verus! {

/// The runs that a party can make: each is a chain of rounds.
#[derive(Clone, Copy, Debug, PartialEq, Eq, Structural)]
pub enum Pipeline {
    KeyGeneration,
    Reconstruction,
    Signing,
    Tweak,
}

impl Stage {
    /// The run that the round belongs to.
    pub open spec fn pipeline_spec(self) -> Pipeline {
        match self {
            Stage::KeyGen1 | Stage::KeyGen2 | Stage::KeyGen3 | Stage::KeyGen4 => {
                Pipeline::KeyGeneration
            },
            Stage::Reconstruct => Pipeline::Reconstruction,
            Stage::Tweak => Pipeline::Tweak,
            _ => Pipeline::Signing,
        }
    }

    /// The place of the round in its run, counted from 1.
    pub open spec fn number_spec(self) -> int {
        match self {
            Stage::KeyGen1 | Stage::Sign1 | Stage::Reconstruct | Stage::Tweak => 1,
            Stage::KeyGen2 | Stage::Sign2 => 2,
            Stage::KeyGen3 | Stage::Sign3 => 3,
            Stage::KeyGen4 | Stage::Sign4 => 4,
            Stage::Sign5 => 5,
            Stage::Sign6 => 6,
            Stage::Sign7 => 7,
            Stage::Sign8 => 8,
            Stage::Sign9 => 9,
        }
    }

    /// The number of rounds of a run.
    pub open spec fn rounds(pipeline: Pipeline) -> int {
        match pipeline {
            Pipeline::KeyGeneration => 4,
            Pipeline::Signing => 9,
            Pipeline::Reconstruction | Pipeline::Tweak => 1,
        }
    }

    /// The round that follows this one in its run, if one does.
    pub open spec fn successor_spec(self) -> Option<Stage> {
        match self {
            Stage::KeyGen1 => Some(Stage::KeyGen2),
            Stage::KeyGen2 => Some(Stage::KeyGen3),
            Stage::KeyGen3 => Some(Stage::KeyGen4),
            Stage::Sign1 => Some(Stage::Sign2),
            Stage::Sign2 => Some(Stage::Sign3),
            Stage::Sign3 => Some(Stage::Sign4),
            Stage::Sign4 => Some(Stage::Sign5),
            Stage::Sign5 => Some(Stage::Sign6),
            Stage::Sign6 => Some(Stage::Sign7),
            Stage::Sign7 => Some(Stage::Sign8),
            Stage::Sign8 => Some(Stage::Sign9),
            Stage::KeyGen4 | Stage::Sign9 | Stage::Reconstruct | Stage::Tweak => None,
        }
    }

    /// Whether the round needs the message: the rounds before it can run ahead of
    /// time.
    pub open spec fn online_spec(self) -> bool {
        self is Sign8 || self is Sign9
    }

    #[verifier::when_used_as_spec(pipeline_spec)]
    pub fn pipeline(self) -> (p: Pipeline)
        ensures
            p == self.pipeline_spec(),
    {
        match self {
            Stage::KeyGen1 | Stage::KeyGen2 | Stage::KeyGen3 | Stage::KeyGen4 => {
                Pipeline::KeyGeneration
            },
            Stage::Reconstruct => Pipeline::Reconstruction,
            Stage::Tweak => Pipeline::Tweak,
            _ => Pipeline::Signing,
        }
    }

    pub fn number(self) -> (k: u8)
        ensures
            k == self.number_spec(),
            1 <= k <= Self::rounds(self.pipeline_spec()),
    {
        match self {
            Stage::KeyGen1 | Stage::Sign1 | Stage::Reconstruct | Stage::Tweak => 1,
            Stage::KeyGen2 | Stage::Sign2 => 2,
            Stage::KeyGen3 | Stage::Sign3 => 3,
            Stage::KeyGen4 | Stage::Sign4 => 4,
            Stage::Sign5 => 5,
            Stage::Sign6 => 6,
            Stage::Sign7 => 7,
            Stage::Sign8 => 8,
            Stage::Sign9 => 9,
        }
    }

    #[verifier::when_used_as_spec(successor_spec)]
    pub fn successor(self) -> (next: Option<Stage>)
        ensures
            next == self.successor_spec(),
    {
        match self {
            Stage::KeyGen1 => Some(Stage::KeyGen2),
            Stage::KeyGen2 => Some(Stage::KeyGen3),
            Stage::KeyGen3 => Some(Stage::KeyGen4),
            Stage::Sign1 => Some(Stage::Sign2),
            Stage::Sign2 => Some(Stage::Sign3),
            Stage::Sign3 => Some(Stage::Sign4),
            Stage::Sign4 => Some(Stage::Sign5),
            Stage::Sign5 => Some(Stage::Sign6),
            Stage::Sign6 => Some(Stage::Sign7),
            Stage::Sign7 => Some(Stage::Sign8),
            Stage::Sign8 => Some(Stage::Sign9),
            Stage::KeyGen4 | Stage::Sign9 | Stage::Reconstruct | Stage::Tweak => None,
        }
    }

    #[verifier::when_used_as_spec(online_spec)]
    pub fn online(self) -> (b: bool)
        ensures
            b == self.online_spec(),
    {
        match self {
            Stage::Sign8 | Stage::Sign9 => true,
            _ => false,
        }
    }
}

/// How far one party has come in one run: the rounds it has completed, in the
/// order in which it completed them.
#[derive(Clone, Copy, Debug)]
pub struct Progress {
    pipeline: Pipeline,
    completed: u8,
}

impl Progress {
    /// The run that the progress is of.
    pub closed spec fn pipeline(&self) -> Pipeline {
        self.pipeline
    }

    /// The number of rounds completed.
    pub closed spec fn completed(&self) -> int {
        self.completed as int
    }

    #[verifier::type_invariant]
    spec fn inv(self) -> bool {
        self.completed <= Stage::rounds(self.pipeline)
    }

    /// Whether the party may enter `stage` next: it is the round of this run that
    /// follows the ones completed.
    pub open spec fn admits_spec(&self, stage: Stage) -> bool {
        stage.pipeline_spec() == self.pipeline() && stage.number_spec() == self.completed() + 1
    }

    /// Whether the run is complete.
    pub open spec fn finished_spec(&self) -> bool {
        self.completed() == Stage::rounds(self.pipeline())
    }

    /// A run of `pipeline` of which no round is completed.
    pub fn start(pipeline: Pipeline) -> (p: Progress)
        ensures
            p.pipeline() == pipeline,
            p.completed() == 0,
    {
        Progress { pipeline, completed: 0 }
    }

    #[verifier::when_used_as_spec(admits_spec)]
    pub fn admits(&self, stage: Stage) -> (b: bool)
        ensures
            b == self.admits_spec(stage),
    {
        proof {
            use_type_invariant(self);
        }
        stage.pipeline() == self.pipeline && stage.number() == self.completed + 1
    }

    #[verifier::when_used_as_spec(finished_spec)]
    pub fn finished(&self) -> (b: bool)
        ensures
            b == self.finished_spec(),
    {
        match self.pipeline {
            Pipeline::KeyGeneration => self.completed == 4,
            Pipeline::Signing => self.completed == 9,
            Pipeline::Reconstruction | Pipeline::Tweak => self.completed == 1,
        }
    }

    /// Records that the party completed `stage`. Refused, as a violation of the
    /// protocol's shape in `stage`, where the party may not enter `stage`.
    pub fn complete(self, stage: Stage) -> (r: Result<Progress, StageError>)
        ensures
            r is Ok <==> self.admits_spec(stage),
            r matches Ok(p) ==> p.pipeline() == self.pipeline() && p.completed() == self.completed()
                + 1,
            r matches Err(e) ==> e == StageError::shape(stage),
    {
        proof {
            use_type_invariant(&self);
        }
        if self.admits(stage) {
            let k: u8 = stage.number();
            Ok(Progress { pipeline: self.pipeline, completed: k })
        } else {
            Err(StageError::shape(stage))
        }
    }
}

/// The round that a run admits after a round is the successor of that round:
/// no round is skipped, repeated or taken from another run.
pub proof fn lemma_rounds_follow_in_order(earlier: Stage, later: Stage, progress: Progress)
    requires
        progress.pipeline() == earlier.pipeline_spec(),
        progress.completed() == earlier.number_spec(),
        progress.admits_spec(later),
    ensures
        earlier.successor_spec() == Some(later),
{
}

/// A run that admits a round of signing that needs the message has completed
/// every round that does not.
pub proof fn lemma_online_after_offline(stage: Stage, progress: Progress)
    requires
        progress.admits_spec(stage),
        stage.online_spec(),
    ensures
        progress.completed() >= 7,
{
}

} // verus!
