//! The run's state machine: steps run strictly in order, and the first
//! failure ends the run.
use vstd::prelude::*;

verus! {

/// Where a run of `n` steps stands.
#[derive(Clone, Copy, Debug, PartialEq, Eq, Structural)]
pub enum RunState {
    NotStarted,
    /// Step `i` is the one to carry out next.
    Running(usize),
    /// Every step passed.
    Passed,
    /// Step `i` failed; nothing after it ran.
    Failed(usize),
}

/// A state that a run of `n` steps can be in.
pub open spec fn well_formed(s: RunState, n: nat) -> bool {
    match s {
        RunState::Running(i) => i < n,
        RunState::Failed(i) => i < n,
        _ => true,
    }
}

pub open spec fn start_spec(n: nat) -> RunState {
    if n == 0 {
        RunState::Passed
    } else {
        RunState::Running(0)
    }
}

/// The state after the step under way reports whether it passed. Only a
/// running state moves; the others are final (or wait for `start`).
pub open spec fn advance_spec(s: RunState, n: nat, passed: bool) -> RunState {
    match s {
        RunState::Running(i) => if !passed {
            RunState::Failed(i)
        } else if i + 1 < n {
            RunState::Running((i + 1) as usize)
        } else {
            RunState::Passed
        },
        _ => s,
    }
}

/// The state after the outcomes of the first steps, one per step, in order.
pub open spec fn after(n: nat, outcomes: Seq<bool>) -> RunState
    decreases outcomes.len(),
{
    if outcomes.len() == 0 {
        start_spec(n)
    } else {
        advance_spec(after(n, outcomes.drop_last()), n, outcomes.last())
    }
}

impl RunState {
    /// Starts a run of `n` steps: at the first step, or passed at once when
    /// there are none.
    pub fn start(n: usize) -> (r: RunState)
        ensures
            r == start_spec(n as nat),
            well_formed(r, n as nat),
    {
        if n == 0 {
            RunState::Passed
        } else {
            RunState::Running(0)
        }
    }

    /// Records whether the step under way passed.
    pub fn advance(self, n: usize, passed: bool) -> (r: RunState)
        requires
            well_formed(self, n as nat),
        ensures
            r == advance_spec(self, n as nat, passed),
            well_formed(r, n as nat),
    {
        match self {
            RunState::Running(i) => if !passed {
                RunState::Failed(i)
            } else if i + 1 < n {
                RunState::Running(i + 1)
            } else {
                RunState::Passed
            },
            _ => self,
        }
    }

    /// The index of the step to carry out next, if the run is under way.
    pub fn current(&self) -> (r: Option<usize>)
        ensures
            r == (match *self {
                RunState::Running(i) => Some(i),
                _ => None,
            }),
    {
        match self {
            RunState::Running(i) => Some(*i),
            _ => None,
        }
    }
}

/// Fail-fast: after the outcomes of the first steps of a run of `n`, the run
/// has failed at the first step that did not pass, if any did not; otherwise
/// it waits on the next step, or has passed once all `n` have.
pub proof fn lemma_fail_fast(n: usize, outcomes: Seq<bool>)
    requires
        outcomes.len() <= n,
    ensures
        (forall|j: int| 0 <= j < outcomes.len() ==> #[trigger] outcomes[j]) ==> after(
            n as nat,
            outcomes,
        ) == (if outcomes.len() == n {
            RunState::Passed
        } else {
            RunState::Running(outcomes.len() as usize)
        }),
        forall|i: int|
            0 <= i < outcomes.len() && !#[trigger] outcomes[i] && (forall|j: int|
                0 <= j < i ==> outcomes[j]) ==> after(n as nat, outcomes) == RunState::Failed(
                i as usize,
            ),
    decreases outcomes.len(),
{
    if outcomes.len() > 0 {
        let front = outcomes.drop_last();
        let m = front.len();
        lemma_fail_fast(n, front);
        if forall|j: int| 0 <= j < m ==> #[trigger] front[j] {
            assert(after(n as nat, front) == RunState::Running(m as usize));
        } else {
            let i0 = choose|i: int| 0 <= i < m && !#[trigger] front[i];
            lemma_first_false(front, i0);
        }
        assert forall|i: int|
            0 <= i < outcomes.len() && !#[trigger] outcomes[i] && (forall|j: int|
                0 <= j < i ==> outcomes[j]) implies after(n as nat, outcomes) == RunState::Failed(
            i as usize,
        ) by {
            if i < m {
                assert(front[i] == outcomes[i]);
                assert forall|j: int| 0 <= j < i implies front[j] by {
                    assert(front[j] == outcomes[j]);
                }
            } else {
                assert forall|j: int| 0 <= j < m implies #[trigger] front[j] by {
                    assert(front[j] == outcomes[j]);
                }
            }
        }
        if forall|j: int| 0 <= j < outcomes.len() ==> #[trigger] outcomes[j] {
            assert forall|j: int| 0 <= j < m implies #[trigger] front[j] by {
                assert(front[j] == outcomes[j]);
            }
            assert(outcomes[outcomes.len() - 1]);
        }
    }
}

/// Where some outcome is false, there is a first false one.
proof fn lemma_first_false(o: Seq<bool>, k: int)
    requires
        0 <= k < o.len(),
        !o[k],
    ensures
        exists|i: int| 0 <= i <= k && !#[trigger] o[i] && forall|j: int| 0 <= j < i ==> o[j],
    decreases k,
{
    if exists|j: int| 0 <= j < k && !#[trigger] o[j] {
        let j = choose|j: int| 0 <= j < k && !#[trigger] o[j];
        lemma_first_false(o, j);
    } else {
        assert(forall|j: int| 0 <= j < k ==> o[j]);
    }
}

} // verus!
