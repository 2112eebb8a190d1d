//! Counting workers by phase.

use vstd::prelude::*;

use crate::worker::Phase;

verus! {

/// The number of workers that are in `phase`.
pub open spec fn count(phases: Seq<Phase>, phase: Phase) -> nat
    decreases phases.len(),
{
    if phases.len() == 0 {
        0
    } else {
        count(phases.drop_last(), phase) + if phases.last() == phase {
            1nat
        } else {
            0nat
        }
    }
}

/// The number of workers that are running: waiting or busy.
pub open spec fn running(phases: Seq<Phase>) -> nat {
    count(phases, Phase::Waiting) + count(phases, Phase::Executing)
}

/// The number of workers that have not taken a terminate message: those that
/// run, and those that failed.
pub open spec fn unstopped(phases: Seq<Phase>) -> nat {
    running(phases) + count(phases, Phase::Failed)
}

/// Every worker is in exactly one phase.
pub proof fn lemma_phases_partition(phases: Seq<Phase>)
    ensures
        unstopped(phases) + count(phases, Phase::Stopped) == phases.len(),
    decreases phases.len(),
{
    if phases.len() > 0 {
        lemma_phases_partition(phases.drop_last());
    }
}

/// Moving one worker to another phase moves one unit between the counts.
pub proof fn lemma_count_update(phases: Seq<Phase>, worker: int, to: Phase, phase: Phase)
    requires
        0 <= worker < phases.len(),
    ensures
        count(phases.update(worker, to), phase) + (if phases[worker] == phase {
            1nat
        } else {
            0nat
        }) == count(phases, phase) + (if to == phase {
            1nat
        } else {
            0nat
        }),
    decreases phases.len(),
{
    let updated = phases.update(worker, to);
    if worker == phases.len() - 1 {
        assert(updated.drop_last() =~= phases.drop_last());
    } else {
        assert(updated.drop_last() =~= phases.drop_last().update(worker, to));
        lemma_count_update(phases.drop_last(), worker, to, phase);
    }
}

/// No worker is counted in a phase that none of them is in, and the other way
/// round.
pub proof fn lemma_count_zero(phases: Seq<Phase>, phase: Phase)
    ensures
        count(phases, phase) == 0 <==> forall|i: int| 0 <= i < phases.len() ==> phases[i] != phase,
    decreases phases.len(),
{
    if phases.len() > 0 {
        let front = phases.drop_last();
        lemma_count_zero(front, phase);
        if count(phases, phase) == 0 {
            assert forall|i: int| 0 <= i < phases.len() implies phases[i] != phase by {
                if i < front.len() {
                    assert(front[i] == phases[i]);
                }
            }
        }
    }
}

} // verus!
