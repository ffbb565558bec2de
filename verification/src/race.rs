//! Racing two deferred computations: the combined value resolves to
//! whichever side completes first and abandons the other.

use vstd::prelude::*;

use crate::task::AsyncOp;
use crate::task::Progress;

verus! {

/// The outcome of a race: exactly one side's value, tagged with which side won.
pub enum Either<L, R> {
    Left(L),
    Right(R),
}

/// Does the left side win a race between a side that needs `left_polls`
/// polls and one that needs `right_polls`?
///
/// The left side is polled first on every round, so it wins whenever it
/// completes no later than the right side; on a tie both would complete in
/// the same round and the left result is preferred. A left side that has
/// already completed (or completes on the very first round) wins outright,
/// because the first poll observes its completion before the right side is
/// ever consulted.
pub open spec fn left_wins(left_polls: nat, right_polls: nat) -> bool {
    left_polls <= 1 || left_polls <= right_polls
}

/// How many polls a race still needs when its sides need `left_polls` and
/// `right_polls`: the earlier of the two completions, but at least one poll,
/// since even an already completed side is only observed by polling.
pub open spec fn race_polls(left_polls: nat, right_polls: nat) -> nat {
    let earlier = if left_polls <= right_polls {
        left_polls
    } else {
        right_polls
    };
    if earlier == 0 {
        1nat
    } else {
        earlier
    }
}

enum RaceState<L, R, A, B> {
    /// Both sides are still in flight.
    Running(A, B),
    /// The race has resolved; only the winning value is retained, the
    /// losing side was dropped at resolution and can never be polled again.
    Resolved(Either<L, R>),
}

/// A deferred computation that runs two deferred computations concurrently,
/// in the cooperative sense: on every poll the left side is advanced first,
/// then (only if the left side stayed pending) the right side. The race
/// completes with the first value to appear, tagged with its side, and
/// abandons the loser by dropping it: abandonment is the absence of further
/// polls, not a forced termination.
///
/// An error is carried inside a side's outcome, so a failing side resolves
/// the race exactly like a succeeding one.
pub struct Race<L, R, A: AsyncOp<L>, B: AsyncOp<R>> {
    state: RaceState<L, R, A, B>,
}

impl<L, R, A: AsyncOp<L>, B: AsyncOp<R>> Race<L, R, A, B> {
    /// The freshly combined race over `left` and `right`, as a value that
    /// laws about a race's resolution can speak of.
    pub closed spec fn spec_new(left: A, right: B) -> Race<L, R, A, B> {
        Race { state: RaceState::Running(left, right) }
    }

    /// Combine two deferred computations into their race.
    pub fn new(left: A, right: B) -> (r: Self)
        ensures
            r == Self::spec_new(left, right),
            r.polls_remaining() == race_polls(left.polls_remaining(), right.polls_remaining()),
            left_wins(left.polls_remaining(), right.polls_remaining()) ==> r.outcome()
                == Either::<L, R>::Left(left.outcome()),
            !left_wins(left.polls_remaining(), right.polls_remaining()) ==> r.outcome()
                == Either::<L, R>::Right(right.outcome()),
    {
        Race { state: RaceState::Running(left, right) }
    }
}

impl<L, R, A: AsyncOp<L>, B: AsyncOp<R>> AsyncOp<Either<L, R>> for Race<L, R, A, B> {
    closed spec fn polls_remaining(&self) -> nat {
        match self.state {
            RaceState::Running(a, b) => race_polls(a.polls_remaining(), b.polls_remaining()),
            RaceState::Resolved(_) => 0,
        }
    }

    closed spec fn outcome(&self) -> Either<L, R> {
        match self.state {
            RaceState::Running(a, b) => if left_wins(a.polls_remaining(), b.polls_remaining()) {
                Either::Left(a.outcome())
            } else {
                Either::Right(b.outcome())
            },
            RaceState::Resolved(w) => w,
        }
    }

    fn advance(self) -> (r: (Self, Progress)) {
        match self.state {
            RaceState::Resolved(w) => {
                // Already resolved: polling again is a stable no-op.
                (Race { state: RaceState::Resolved(w) }, Progress::Complete)
            },
            RaceState::Running(a, b) => {
                let (a, pa) = a.advance();
                match pa {
                    Progress::Complete => {
                        // Left side done: resolve left and abandon the right
                        // side without advancing it.
                        let won = Either::Left(a.into_outcome());
                        (Race { state: RaceState::Resolved(won) }, Progress::Complete)
                    },
                    Progress::Pending => {
                        let (b, pb) = b.advance();
                        match pb {
                            Progress::Complete => {
                                // Right side done: resolve right, abandon left.
                                let won = Either::Right(b.into_outcome());
                                (Race { state: RaceState::Resolved(won) }, Progress::Complete)
                            },
                            Progress::Pending => {
                                (Race { state: RaceState::Running(a, b) }, Progress::Pending)
                            },
                        }
                    },
                }
            },
        }
    }

    fn into_outcome(self) -> (v: Either<L, R>) {
        match self.state {
            RaceState::Resolved(w) => w,
            RaceState::Running(_, _) => vstd::pervasive::unreached(),
        }
    }
}

/// A left side that completes in fewer polls than the right side wins the
/// race: it resolves to the left value, after exactly as many polls as the
/// left side needs (one, if the left side had already completed). At
/// resolution the right side is dropped, so it is never advanced again.
pub proof fn lemma_faster_left_side_wins<L, R, A: AsyncOp<L>, B: AsyncOp<R>>(left: A, right: B)
    requires
        left.polls_remaining() < right.polls_remaining(),
    ensures
        left_wins(left.polls_remaining(), right.polls_remaining()),
        Race::spec_new(left, right).outcome() == Either::<L, R>::Left(left.outcome()),
        Race::spec_new(left, right).polls_remaining() == race_polls(
            left.polls_remaining(),
            right.polls_remaining(),
        ),
{
}

/// Tie-break determinism: when both sides would complete on the same poll
/// round, the race resolves to the left value, because the left side is
/// always polled first.
pub proof fn lemma_tie_resolves_left<L, R, A: AsyncOp<L>, B: AsyncOp<R>>(left: A, right: B)
    requires
        left.polls_remaining() == right.polls_remaining(),
    ensures
        left_wins(left.polls_remaining(), right.polls_remaining()),
        Race::spec_new(left, right).outcome() == Either::<L, R>::Left(left.outcome()),
{
}

} // verus!
