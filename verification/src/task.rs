//! The fundamental unit of deferred computation: a value that is polled
//! explicitly and completes exactly once.

use vstd::prelude::*;

verus! {

/// The tag returned by one poll: either the computation must be retried
/// later, or it has reached its final value.
#[derive(Clone, Copy, PartialEq, Eq, Structural, Debug)]
pub enum Progress {
    /// Not ready yet; the caller must poll again later.
    Pending,
    /// The computation has completed; its outcome can now be extracted.
    Complete,
}

/// An explicitly polled deferred computation.
///
/// `polls_remaining` is the number of `advance` calls still needed before
/// the completion signal: a value with `polls_remaining() == 0` has already
/// completed, one with `polls_remaining() == k > 0` reports [`Progress::Pending`]
/// for the first `k - 1` polls and [`Progress::Complete`] on poll `k`.
/// `outcome` is the value it completes with; an operation that can fail
/// carries its error inside the outcome, so failures propagate exactly like
/// successes. Polling an already completed value is a no-op that reports
/// [`Progress::Complete`] again and never changes the outcome.
pub trait AsyncOp<T>: Sized {
    /// How many polls are still needed until the completion signal.
    spec fn polls_remaining(&self) -> nat;

    /// The value this computation completes with.
    spec fn outcome(&self) -> T;

    /// Make one step of progress: the caller gets the successor state back
    /// together with the tag of this poll.
    fn advance(self) -> (r: (Self, Progress))
        ensures
            r.0.outcome() == self.outcome(),
            r.0.polls_remaining() == if self.polls_remaining() == 0 {
                0nat
            } else {
                (self.polls_remaining() - 1) as nat
            },
            r.1 is Complete <==> self.polls_remaining() <= 1,
    ;

    /// Extract the final value of a completed computation.
    fn into_outcome(self) -> (v: T)
        requires
            self.polls_remaining() == 0,
        ensures
            v == self.outcome(),
    ;
}

/// A scripted deferred computation: it reports [`Progress::Pending`] a fixed
/// number of times and then completes with a value chosen at construction.
///
/// External work (a network fetch, a timer) is abstracted by the script: the
/// number of polls stands for how long the outside condition takes to be met,
/// and the outcome for what it eventually produces.
pub struct AsyncValue<T> {
    rounds_left: u64,
    value: T,
}

impl<T> AsyncValue<T> {
    /// A computation that still needs `rounds` polls: it stays pending for
    /// `rounds - 1` polls and completes with `value` on poll `rounds`.
    /// With `rounds == 0` the computation counts as already completed.
    pub fn new(rounds: u64, value: T) -> (r: Self)
        ensures
            r.polls_remaining() == rounds as nat,
            r.outcome() == value,
    {
        AsyncValue { rounds_left: rounds, value }
    }

    /// An already completed computation, as a stream hands them out.
    pub fn ready(value: T) -> (r: Self)
        ensures
            r.polls_remaining() == 0,
            r.outcome() == value,
    {
        AsyncValue { rounds_left: 0, value }
    }
}

impl<T> AsyncOp<T> for AsyncValue<T> {
    closed spec fn polls_remaining(&self) -> nat {
        self.rounds_left as nat
    }

    closed spec fn outcome(&self) -> T {
        self.value
    }

    fn advance(self) -> (r: (Self, Progress)) {
        if self.rounds_left == 0 {
            // Already completed: polling again is a stable no-op.
            (self, Progress::Complete)
        } else {
            let next = AsyncValue { rounds_left: self.rounds_left - 1, value: self.value };
            if next.rounds_left == 0 {
                (next, Progress::Complete)
            } else {
                (next, Progress::Pending)
            }
        }
    }

    fn into_outcome(self) -> (v: T) {
        self.value
    }
}

} // verus!
