//! The two things a producer waits on: an edge on an input line, and a
//! timeout. Time is a count of scheduler ticks.

use vstd::prelude::*;
use crate::poll::Poll;
use crate::scheduler::{Scheduler, WakeEvent, states_after_wake};

verus! {

/// A re-armable wait for one electrical transition. An interrupt latches
/// the edge; the next wait consumes it.
#[derive(Debug)]
pub struct EdgeSource {
    fired: bool,
}

impl EdgeSource {
    /// Whether an edge has fired that no wait has consumed.
    pub closed spec fn fired(&self) -> bool {
        self.fired
    }

    /// An armed source on which no edge has fired.
    pub fn new() -> (source: EdgeSource)
        ensures
            !source.fired(),
    {
        EdgeSource { fired: false }
    }

    /// The interrupt: records that the transition occurred and makes
    /// every task that waits for the edge runnable. It runs no task.
    pub fn fire(&mut self, scheduler: &mut Scheduler)
        requires
            old(scheduler).wf(),
        ensures
            final(self).fired(),
            final(scheduler).wf(),
            final(scheduler).cursor() == old(scheduler).cursor(),
            final(scheduler).states() == states_after_wake(
                old(scheduler).states(),
                WakeEvent::EdgeFired,
            ),
    {
        self.fired = true;
        scheduler.wake(WakeEvent::EdgeFired);
    }

    /// Whether an edge has fired that no wait has consumed.
    pub fn is_fired(&self) -> (fired: bool)
        ensures
            fired == self.fired(),
    {
        self.fired
    }

    /// What one evaluation of the wait yields.
    pub open spec fn outcome(&self) -> Poll<()> {
        if self.fired() {
            Poll::Ready(())
        } else {
            Poll::Pending
        }
    }

    /// One evaluation of the wait: ready when an edge has fired, which
    /// consumes the edge and re-arms the source.
    pub fn wait_for_edge(&mut self) -> (edge: Poll<()>)
        ensures
            edge == old(self).outcome(),
            !final(self).fired(),
    {
        if self.fired {
            self.fired = false;
            Poll::Ready(())
        } else {
            Poll::Pending
        }
    }
}

/// A single completion once a duration has elapsed.
#[derive(Debug)]
pub struct Timeout {
    deadline: u64,
}

impl Timeout {
    /// The tick at which the timeout completes.
    pub closed spec fn deadline(&self) -> nat {
        self.deadline as nat
    }

    /// A timeout that completes `duration` ticks after `now`.
    pub fn after(now: u64, duration: u64) -> (timeout: Timeout)
        requires
            now + duration <= u64::MAX,
        ensures
            timeout.deadline() == now + duration,
    {
        Timeout { deadline: now + duration }
    }

    /// The tick at which the timeout completes.
    pub fn expires_at(&self) -> (tick: u64)
        ensures
            tick == self.deadline(),
    {
        self.deadline
    }

    /// What one evaluation at tick `now` yields.
    pub open spec fn outcome(&self, now: u64) -> Poll<()> {
        if now >= self.deadline() {
            Poll::Ready(())
        } else {
            Poll::Pending
        }
    }

    /// The timer interrupt at tick `now`, for a timeout that task `owner`
    /// waits on: from the deadline on it makes that task runnable if it
    /// waits for its timeout, and says so. It runs no task.
    pub fn expire(&self, scheduler: &mut Scheduler, owner: usize, now: u64) -> (expired: bool)
        requires
            old(scheduler).wf(),
        ensures
            expired == (now >= self.deadline()),
            final(scheduler).wf(),
            final(scheduler).cursor() == old(scheduler).cursor(),
            final(scheduler).states() == if expired {
                states_after_wake(old(scheduler).states(), WakeEvent::TimerExpired(owner))
            } else {
                old(scheduler).states()
            },
    {
        if now >= self.deadline {
            scheduler.wake(WakeEvent::TimerExpired(owner));
            true
        } else {
            false
        }
    }

    /// One evaluation at tick `now`: ready from the deadline on.
    pub fn poll(&self, now: u64) -> (expired: Poll<()>)
        ensures
            expired == self.outcome(now),
    {
        if now >= self.deadline {
            Poll::Ready(())
        } else {
            Poll::Pending
        }
    }
}

} // verus!
