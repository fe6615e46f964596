//! Control of the fixed-point iterations.
//!
//! Kepler's equation, refraction and parallax are solved by correcting an
//! estimate until two estimates in a row agree. The arithmetic of a
//! correction belongs to the caller; whether to go on belongs here. An
//! iteration that has not settled after [`MAX_CORRECTIONS`] corrections is
//! given up, so that no input can keep a caller busy for ever.

use vstd::prelude::*;

verus! {

/// The most corrections that one iteration may apply.
pub const MAX_CORRECTIONS: u32 = 50;

/// Where an iteration stands.
#[derive(Clone, Copy, Debug, PartialEq, Eq, Structural)]
pub enum Iteration {
    /// Still correcting; holds the number of corrections applied so far.
    Iterating(u32),
    /// Two estimates agreed; holds the number of corrections it took.
    Converged(u32),
    /// Given up: the estimates still differed after every allowed
    /// correction.
    Diverged,
}

/// What the caller does next.
#[derive(Clone, Copy, Debug, PartialEq, Eq, Structural)]
pub enum Action {
    /// Apply one more correction and test again.
    Correct,
    /// Use the estimate as it is.
    Accept,
    /// Report that the iteration did not converge.
    GiveUp,
}

impl Iteration {
    /// Whether the iteration has come to an end, one way or the other.
    pub open spec fn is_finished(self) -> bool {
        !(self is Iterating)
    }

    /// The most steps that can still follow before the iteration ends.
    pub open spec fn steps_left(self) -> nat {
        match self {
            Iteration::Iterating(done) => if done <= MAX_CORRECTIONS {
                (MAX_CORRECTIONS - done + 1) as nat
            } else {
                1
            },
            _ => 0,
        }
    }

    /// The state that follows after one convergence test.
    ///
    /// A finished iteration stays as it is. A running one ends as converged
    /// when the test passed, goes on while corrections are left, and is
    /// given up when none is.
    pub open spec fn next(self, agreed: bool) -> Iteration {
        match self {
            Iteration::Iterating(done) => if agreed {
                Iteration::Converged(done)
            } else if done < MAX_CORRECTIONS {
                Iteration::Iterating((done + 1) as u32)
            } else {
                Iteration::Diverged
            },
            _ => self,
        }
    }

    /// The action that a state asks of the caller.
    pub open spec fn action(self) -> Action {
        match self {
            Iteration::Iterating(_) => Action::Correct,
            Iteration::Converged(_) => Action::Accept,
            Iteration::Diverged => Action::GiveUp,
        }
    }

    /// An iteration before its first convergence test.
    pub fn start() -> (state: Iteration)
        ensures
            state == Iteration::Iterating(0),
    {
        Iteration::Iterating(0)
    }

    /// Takes the outcome of one convergence test and returns the state that
    /// follows, with what the caller is to do next.
    pub fn step(self, agreed: bool) -> (next: (Iteration, Action))
        ensures
            next.0 == self.next(agreed),
            next.1 == self.next(agreed).action(),
            !self.is_finished() ==> next.0.steps_left() < self.steps_left(),
    {
        match self {
            Iteration::Iterating(done) => {
                if agreed {
                    (Iteration::Converged(done), Action::Accept)
                } else if done < MAX_CORRECTIONS {
                    (Iteration::Iterating(done + 1), Action::Correct)
                } else {
                    (Iteration::Diverged, Action::GiveUp)
                }
            },
            Iteration::Converged(done) => (Iteration::Converged(done), Action::Accept),
            Iteration::Diverged => (Iteration::Diverged, Action::GiveUp),
        }
    }
}

/// The state after a run of convergence tests, the first outcome first.
pub open spec fn after(state: Iteration, outcomes: Seq<bool>) -> Iteration
    decreases outcomes.len(),
{
    if outcomes.len() == 0 {
        state
    } else {
        after(state.next(outcomes[0]), outcomes.drop_first())
    }
}

/// Every iteration ends: whatever the convergence tests say, after one test
/// more than the allowed corrections the iteration is finished.
pub proof fn lemma_iteration_ends(state: Iteration, outcomes: Seq<bool>)
    requires
        outcomes.len() >= state.steps_left(),
    ensures
        after(state, outcomes).is_finished(),
    decreases outcomes.len(),
{
    if outcomes.len() == 0 {
    } else {
        let next = state.next(outcomes[0]);
        if state.is_finished() {
            assert(next == state);
        }
        lemma_iteration_ends(next, outcomes.drop_first());
    }
}

} // verus!
