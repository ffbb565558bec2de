//! The run-to-completion driver: it polls one root deferred computation on
//! the calling thread until the computation completes, with no other thread
//! involved. All composed computations make progress on this single logical
//! thread, interleaved only by the order in which the combinators poll them,
//! which is why every run is deterministic and reproducible.

use vstd::prelude::*;

use crate::task::AsyncOp;
use crate::task::Progress;

verus! {

/// How many polls the driver makes for a root that still needs
/// `root_polls` polls: exactly that many, except that even an already
/// completed root is polled once to observe its completion.
pub open spec fn driver_polls(root_polls: nat) -> nat {
    if root_polls == 0 {
        1nat
    } else {
        root_polls
    }
}

/// Drive `root` to completion and report how many polls it took: the final
/// value is the root's outcome, and a root that completes within `n` polls
/// is polled at most `n` times (once, if it had already completed).
///
/// The driver owns the root exclusively for the duration of the run and no
/// scheduler state survives the call. A computation modelled as never
/// completing within any horizon of interest simply carries a poll budget
/// beyond that horizon; the driver's poll count is exact, so the caller can
/// see that no extra polls happen.
pub fn run_counted<T, F: AsyncOp<T>>(root: F) -> (r: (T, u64))
    requires
        root.polls_remaining() <= u64::MAX,
    ensures
        r.0 == root.outcome(),
        r.1 == driver_polls(root.polls_remaining()),
{
    let mut current = root;
    let mut polls: u64 = 0;
    loop
        invariant
            current.outcome() == root.outcome(),
            current.polls_remaining() <= root.polls_remaining(),
            root.polls_remaining() <= u64::MAX,
            polls == root.polls_remaining() - current.polls_remaining(),
            current.polls_remaining() > 0 || polls == 0,
        decreases current.polls_remaining(),
    {
        let (next, progress) = current.advance();
        polls = polls + 1;
        match progress {
            Progress::Complete => {
                return (next.into_outcome(), polls);
            },
            Progress::Pending => {
                current = next;
            },
        }
    }
}

/// Drive `root` to completion and return its final value synchronously.
pub fn run_to_completion<T, F: AsyncOp<T>>(root: F) -> (v: T)
    requires
        root.polls_remaining() <= u64::MAX,
    ensures
        v == root.outcome(),
{
    let (value, _polls) = run_counted(root);
    value
}

} // verus!
