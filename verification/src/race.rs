//! Waiting on two suspension points at once: the first to complete
//! decides, the first-listed wins a tie, and the loser is discarded.

use vstd::prelude::*;
use crate::poll::Poll;
use crate::scheduler::{Resource, Scheduler, states_after_poll};
use crate::source::{EdgeSource, Timeout};

verus! {

/// Which side of a race completed, with that side's value.
#[derive(Debug, PartialEq, Eq, Structural)]
pub enum RaceResult<A, B> {
    /// The first-listed operand completed.
    Left(A),
    /// The second-listed operand completed.
    Right(B),
}

/// What one evaluation of a race yields, given what each operand yields:
/// the left value whenever the left is ready, else the right value when
/// the right is ready, else nothing yet.
pub open spec fn race_outcome<A, B>(a: Poll<A>, b: Poll<B>) -> Poll<RaceResult<A, B>> {
    match (a, b) {
        (Poll::Ready(x), _) => Poll::Ready(RaceResult::Left(x)),
        (Poll::Pending, Poll::Ready(y)) => Poll::Ready(RaceResult::Right(y)),
        (Poll::Pending, Poll::Pending) => Poll::Pending,
    }
}

/// One evaluation, by the task `task`, of a race between two
/// operands that have each been evaluated in the same scheduler pass.
/// The value of the losing side is dropped. While neither side is ready
/// the task is suspended on the race.
pub fn race<A, B>(a: Poll<A>, b: Poll<B>, scheduler: &mut Scheduler, task: usize) -> (winner: Poll<
    RaceResult<A, B>,
>)
    requires
        old(scheduler).wf(),
        task < old(scheduler).states().len(),
    ensures
        winner == race_outcome(a, b),
        final(scheduler).wf(),
        final(scheduler).cursor() == old(scheduler).cursor(),
        final(scheduler).states() == states_after_poll(
            old(scheduler).states(),
            task as int,
            winner is Pending,
            Resource::Race,
        ),
{
    match a {
        Poll::Ready(x) => Poll::Ready(RaceResult::Left(x)),
        Poll::Pending => match b {
            Poll::Ready(y) => Poll::Ready(RaceResult::Right(y)),
            Poll::Pending => {
                scheduler.suspend(task, Resource::Race);
                Poll::Pending
            },
        },
    }
}

/// One evaluation, by the task `task` at tick `now`, of the race
/// between an edge and a timeout. The edge is looked at first and the
/// timeout only if the edge has not fired. Whatever the outcome, no fired
/// edge is left unconsumed, so the source can be waited on afresh.
pub fn race_edge_timeout(
    edge: &mut EdgeSource,
    timeout: &Timeout,
    now: u64,
    scheduler: &mut Scheduler,
    task: usize,
) -> (winner: Poll<RaceResult<(), ()>>)
    requires
        old(scheduler).wf(),
        task < old(scheduler).states().len(),
    ensures
        winner == race_outcome(old(edge).outcome(), timeout.outcome(now)),
        !final(edge).fired(),
        final(scheduler).wf(),
        final(scheduler).cursor() == old(scheduler).cursor(),
        final(scheduler).states() == states_after_poll(
            old(scheduler).states(),
            task as int,
            winner is Pending,
            Resource::Race,
        ),
{
    match edge.wait_for_edge() {
        Poll::Ready(fired) => Poll::Ready(RaceResult::Left(fired)),
        Poll::Pending => race(Poll::Pending, timeout.poll(now), scheduler, task),
    }
}

/// A race has exactly one outcome: it is pending exactly while both
/// operands are, and when it completes it carries the left value if the
/// left operand is ready and the right value otherwise.
pub proof fn lemma_race_one_outcome<A, B>(a: Poll<A>, b: Poll<B>)
    ensures
        race_outcome(a, b) is Pending <==> (a is Pending && b is Pending),
        a is Ready ==> race_outcome(a, b) == Poll::Ready(RaceResult::<A, B>::Left(a->Ready_0)),
        a is Pending && b is Ready ==> race_outcome(a, b) == Poll::Ready(
            RaceResult::<A, B>::Right(b->Ready_0),
        ),
{
}

/// When both operands are ready before the race is evaluated, the
/// first-listed one wins.
pub proof fn lemma_race_first_listed_wins<A, B>(x: A, y: B)
    ensures
        race_outcome(Poll::Ready(x), Poll::Ready(y)) == Poll::Ready(RaceResult::<A, B>::Left(x)),
{
}

/// While no edge fires, a race between the edge and a timeout of
/// `duration` ticks started at tick `start` is pending at every tick
/// before `start + duration` and completes on the right at every tick
/// from then on.
pub proof fn lemma_race_timeout(
    edge: EdgeSource,
    timeout: Timeout,
    start: u64,
    duration: u64,
    now: u64,
)
    requires
        !edge.fired(),
        timeout.deadline() == start + duration,
    ensures
        now < start + duration ==> race_outcome(edge.outcome(), timeout.outcome(now))
            == Poll::<RaceResult<(), ()>>::Pending,
        now >= start + duration ==> race_outcome(edge.outcome(), timeout.outcome(now))
            == Poll::Ready(RaceResult::<(), ()>::Right(())),
{
}

/// While no edge fires, a task that evaluates the race at least once per
/// tick sees it complete, on the right, no earlier than `duration` ticks
/// after the start and no later than one tick after that.
pub proof fn lemma_race_timeout_within_a_tick(
    edge: EdgeSource,
    timeout: Timeout,
    start: u64,
    duration: u64,
    previous: u64,
    now: u64,
)
    requires
        !edge.fired(),
        timeout.deadline() == start + duration,
        previous < now <= previous + 1,
        race_outcome(edge.outcome(), timeout.outcome(previous)) is Pending,
        race_outcome(edge.outcome(), timeout.outcome(now)) is Ready,
    ensures
        start + duration <= now <= start + duration + 1,
        race_outcome(edge.outcome(), timeout.outcome(now)) == Poll::Ready(
            RaceResult::<(), ()>::Right(()),
        ),
{
}

} // verus!
