//! The decision of a round from the results of its checks.
//!
//! A round puts what each party sent to a check and gets a yes or a no for each.
//! What the round answers is decided here, from those answers alone: the first
//! party whose check failed is named.

use crate::errors::{Culprit, ErrorKind, Stage, StageError};
use vstd::prelude::*;

verus! {

/// The least position at which `oks` holds `false`; its length where it holds
/// none.
pub open spec fn first_failure(oks: Seq<bool>) -> int
    decreases oks.len(),
{
    if oks.len() == 0 {
        0
    } else {
        let before = first_failure(oks.drop_last());
        if before < oks.len() - 1 {
            before
        } else if oks.last() {
            oks.len() as int
        } else {
            oks.len() - 1
        }
    }
}

/// `first_failure` lies in `0..=len`, every check before it holds, and the one at
/// it fails where there is one.
pub proof fn lemma_first_failure(oks: Seq<bool>)
    ensures
        0 <= first_failure(oks) <= oks.len(),
        forall|j: int| 0 <= j < first_failure(oks) ==> oks[j],
        first_failure(oks) < oks.len() ==> !oks[first_failure(oks)],
    decreases oks.len(),
{
    if oks.len() > 0 {
        lemma_first_failure(oks.drop_last());
        assert forall|j: int| 0 <= j < first_failure(oks) implies oks[j] by {
            if j < oks.len() - 1 {
                assert(oks.drop_last()[j] == oks[j]);
            }
        }
        if first_failure(oks) < oks.len() - 1 {
            assert(oks.drop_last()[first_failure(oks)] == oks[first_failure(oks)]);
        }
    }
}

/// The failure that a run of checks gives in `stage`, if one failed: of kind
/// `kind`, and attributed to the party whose check failed first. The check
/// number `j` is of the party that stands at `at[j]` in `parties`.
pub open spec fn verdict_of(
    stage: Stage,
    kind: ErrorKind,
    parties: Seq<u16>,
    at: Seq<usize>,
    accepted: Seq<bool>,
) -> Option<StageError> {
    let bad = first_failure(accepted);
    if bad < accepted.len() {
        Some(StageError { stage, kind, culprit: Culprit::Party(parties[at[bad] as int]) })
    } else {
        None
    }
}

/// Decides what a run of checks gives in `stage`.
pub fn verdict(
    stage: Stage,
    kind: ErrorKind,
    parties: &Vec<u16>,
    at: &Vec<usize>,
    accepted: &Vec<bool>,
) -> (r: Option<StageError>)
    requires
        at@.len() == accepted@.len(),
        forall|j: int| 0 <= j < at@.len() ==> at@[j] < parties@.len(),
    ensures
        r == verdict_of(stage, kind, parties@, at@, accepted@),
{
    let mut j: usize = 0;
    while j < accepted.len()
        invariant
            at@.len() == accepted@.len(),
            forall|k: int| 0 <= k < at@.len() ==> at@[k] < parties@.len(),
            0 <= j <= accepted@.len(),
            forall|k: int| 0 <= k < j ==> accepted@[k],
        decreases accepted@.len() - j,
    {
        if !accepted[j] {
            proof {
                lemma_first_failure(accepted@);
            }
            return Some(StageError { stage, kind, culprit: Culprit::Party(parties[at[j]]) });
        }
        j += 1;
    }
    proof {
        lemma_first_failure(accepted@);
    }
    None
}

/// A run of checks gives no failure exactly where every check held.
pub proof fn lemma_verdict_clears_all(
    stage: Stage,
    kind: ErrorKind,
    parties: Seq<u16>,
    at: Seq<usize>,
    accepted: Seq<bool>,
)
    ensures
        verdict_of(stage, kind, parties, at, accepted) is None <==> forall|j: int|
            0 <= j < accepted.len() ==> accepted[j],
{
    lemma_first_failure(accepted);
}

/// A failure names the party of a check that failed, and every check before
/// that one held.
pub proof fn lemma_verdict_names_first(
    stage: Stage,
    kind: ErrorKind,
    parties: Seq<u16>,
    at: Seq<usize>,
    accepted: Seq<bool>,
) -> (bad: int)
    requires
        verdict_of(stage, kind, parties, at, accepted) is Some,
    ensures
        0 <= bad < accepted.len(),
        !accepted[bad],
        forall|j: int| 0 <= j < bad ==> accepted[j],
        verdict_of(stage, kind, parties, at, accepted) == Some(
            StageError { stage, kind, culprit: Culprit::Party(parties[at[bad] as int]) },
        ),
{
    lemma_first_failure(accepted);
    first_failure(accepted)
}

/// One more check that holds after checks that all held leaves all holding; in
/// every other case a check has failed.
pub proof fn lemma_first_failure_push(accepted: Seq<bool>, next: bool)
    ensures
        first_failure(accepted.push(next)) == accepted.len() + 1 <==> first_failure(accepted)
            == accepted.len() && next,
        first_failure(accepted) < accepted.len() ==> first_failure(accepted.push(next))
            == first_failure(accepted),
{
    assert(accepted.push(next).drop_last() =~= accepted);
    lemma_first_failure(accepted);
}

} // verus!
