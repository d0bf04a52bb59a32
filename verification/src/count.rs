//! Counting the workers that are in a given state.

use crate::worker::WorkerState;
use vstd::prelude::*;

verus! {

/// How many entries of `states` are `state`.
pub open spec fn count(states: Seq<WorkerState>, state: WorkerState) -> nat
    decreases states.len(),
{
    if states.len() == 0 {
        0
    } else {
        count(states.drop_last(), state) + if states.last() == state {
            1nat
        } else {
            0nat
        }
    }
}

/// Changing one entry moves one unit of the count from the old state to the
/// new one.
pub proof fn lemma_count_update(
    states: Seq<WorkerState>,
    index: int,
    to: WorkerState,
    state: WorkerState,
)
    requires
        0 <= index < states.len(),
    ensures
        count(states.update(index, to), state) == count(states, state) - (if states[index]
            == state {
            1int
        } else {
            0int
        }) + (if to == state {
            1int
        } else {
            0int
        }),
    decreases states.len(),
{
    let updated = states.update(index, to);
    if index == states.len() - 1 {
        assert(updated.drop_last() =~= states.drop_last());
    } else {
        assert(updated.drop_last() =~= states.drop_last().update(index, to));
        lemma_count_update(states.drop_last(), index, to, state);
    }
}

/// No state is counted more often than there are entries. A state that
/// some entry is in is counted; one that some entry is not in is counted
/// less often than there are entries.
pub proof fn lemma_count_bounds(states: Seq<WorkerState>, state: WorkerState)
    ensures
        count(states, state) <= states.len(),
        forall|i: int| 0 <= i < states.len() && states[i] == state ==> count(states, state) > 0,
        forall|i: int|
            0 <= i < states.len() && states[i] != state ==> count(states, state) < states.len(),
    decreases states.len(),
{
    if states.len() > 0 {
        lemma_count_bounds(states.drop_last(), state);
        assert forall|i: int| 0 <= i < states.len() - 1 implies states[i]
            == states.drop_last()[i] by {}
    }
}

/// A state that no entry is in is counted zero times.
pub proof fn lemma_count_absent(states: Seq<WorkerState>, state: WorkerState)
    requires
        forall|i: int| 0 <= i < states.len() ==> states[i] != state,
    ensures
        count(states, state) == 0,
    decreases states.len(),
{
    if states.len() > 0 {
        lemma_count_absent(states.drop_last(), state);
    }
}

/// A state that every entry is in is counted once for each entry.
pub proof fn lemma_count_full(states: Seq<WorkerState>, state: WorkerState)
    requires
        forall|i: int| 0 <= i < states.len() ==> states[i] == state,
    ensures
        count(states, state) == states.len(),
    decreases states.len(),
{
    if states.len() > 0 {
        lemma_count_full(states.drop_last(), state);
    }
}

/// A sequence of idle workers holds no worker in any other state.
pub proof fn lemma_count_fresh(size: nat, state: WorkerState)
    ensures
        count(Seq::new(size, |i: int| WorkerState::Idle), state) == if state
            == WorkerState::Idle {
            size
        } else {
            0
        },
    decreases size,
{
    let fresh = Seq::new(size, |i: int| WorkerState::Idle);
    if size > 0 {
        assert(fresh.drop_last() =~= Seq::new((size - 1) as nat, |i: int| WorkerState::Idle));
        lemma_count_fresh((size - 1) as nat, state);
    }
}

} // verus!
