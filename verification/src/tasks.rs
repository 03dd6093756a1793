//! The tasks around the latch, each as a state machine that is advanced
//! one step at a time: the producers that turn an edge, or an edge or a
//! timeout, into a write; the consumers that answer each observed write
//! with their next effect; and the ticker behind the timed animations.

use vstd::prelude::*;
use crate::latch::{BroadcastCell, ReaderHandle, Sender};
use crate::poll::Poll;
use crate::race::{race_edge_timeout, race_outcome, RaceResult};
use crate::scheduler::{
    Resource,
    Scheduler,
    WakeEvent,
    states_after_poll,
    states_after_wake,
};
use crate::source::{EdgeSource, Timeout};

verus! {

/// The writer task of a latch with a bounded wait: waits for an edge or,
/// failing that, for its timeout, then writes once.
pub struct Producer {
    task: usize,
    sender: Sender,
    timeout: Timeout,
    patience: u64,
}

impl Producer {
    /// The number of the task that runs this producer.
    pub closed spec fn task(&self) -> int {
        self.task as int
    }

    /// The timeout that the current wait races the edge against.
    pub closed spec fn timeout(&self) -> Timeout {
        self.timeout
    }

    /// The tick at which the current wait gives up on the edge.
    pub open spec fn deadline(&self) -> nat {
        self.timeout().deadline()
    }

    /// How many ticks each wait lasts at most.
    pub closed spec fn patience(&self) -> nat {
        self.patience as nat
    }

    /// A producer for task `task` that starts waiting at tick `now` and
    /// writes after `patience` ticks without an edge.
    pub fn new(task: usize, sender: Sender, now: u64, patience: u64) -> (producer: Producer)
        requires
            now + patience <= u64::MAX,
        ensures
            producer.task() == task,
            producer.patience() == patience,
            producer.deadline() == now + patience,
    {
        Producer { task, sender, timeout: Timeout::after(now, patience), patience }
    }

    /// The tick at which the current wait gives up on the edge.
    pub fn expires_at(&self) -> (tick: u64)
        ensures
            tick == self.deadline(),
    {
        self.timeout.expires_at()
    }

    /// How many ticks each wait lasts at most.
    pub fn wait_ticks(&self) -> (ticks: u64)
        ensures
            ticks == self.patience(),
    {
        self.patience
    }

    /// The timer interrupt at tick `now`: from the deadline of the current
    /// wait on, it makes the producer's task runnable if it is suspended
    /// on its race, and says so.
    pub fn tick(&self, scheduler: &mut Scheduler, now: u64) -> (expired: bool)
        requires
            old(scheduler).wf(),
        ensures
            expired == (now >= self.deadline()),
            final(scheduler).wf(),
            final(scheduler).cursor() == old(scheduler).cursor(),
            final(scheduler).states() == if expired {
                states_after_wake(
                    old(scheduler).states(),
                    WakeEvent::TimerExpired(self.task() as usize),
                )
            } else {
                old(scheduler).states()
            },
    {
        self.timeout.expire(scheduler, self.task, now)
    }

    /// Runs the producer at tick `now` up to its next suspension point.
    ///
    /// While neither the edge nor the timeout is ready the task suspends
    /// on their race and nothing else changes. Otherwise it writes to the
    /// latch once, which makes every task that waits on the latch
    /// runnable, and starts the next wait with a fresh timeout.
    pub fn step<const N: usize>(
        &mut self,
        edge: &mut EdgeSource,
        cell: &mut BroadcastCell<(), N>,
        scheduler: &mut Scheduler,
        now: u64,
    ) -> (outcome: Poll<RaceResult<(), ()>>)
        requires
            old(cell).wf(),
            old(cell).can_send(),
            old(scheduler).wf(),
            old(self).task() < old(scheduler).states().len(),
            now + old(self).patience() <= u64::MAX,
        ensures
            outcome == race_outcome(old(edge).outcome(), old(self).timeout().outcome(now)),
            !final(edge).fired(),
            final(self).task() == old(self).task(),
            final(self).patience() == old(self).patience(),
            final(cell).wf(),
            final(scheduler).wf(),
            final(scheduler).cursor() == old(scheduler).cursor(),
            outcome is Pending ==> {
                &&& final(cell)@ == old(cell)@
                &&& final(self).deadline() == old(self).deadline()
                &&& final(scheduler).states() == states_after_poll(
                    old(scheduler).states(),
                    old(self).task(),
                    true,
                    Resource::Race,
                )
            },
            outcome is Ready ==> {
                &&& final(cell)@ == old(cell)@.send(())
                &&& final(self).deadline() == now + old(self).patience()
                &&& final(scheduler).states() == states_after_wake(
                    old(scheduler).states(),
                    WakeEvent::Sent,
                )
            },
    {
        let outcome = race_edge_timeout(edge, &self.timeout, now, scheduler, self.task);
        match outcome {
            Poll::Pending => {},
            Poll::Ready(_) => {
                self.sender.send(cell, scheduler, ());
                self.timeout = Timeout::after(now, self.patience);
            },
        }
        outcome
    }
}

/// The writer task of a latch without a bounded wait: waits for an edge,
/// however long that takes, then writes once.
pub struct Notifier {
    task: usize,
    sender: Sender,
}

impl Notifier {
    /// The number of the task that runs this notifier.
    pub closed spec fn task(&self) -> int {
        self.task as int
    }

    /// A notifier for task `task`.
    pub fn new(task: usize, sender: Sender) -> (notifier: Notifier)
        ensures
            notifier.task() == task,
    {
        Notifier { task, sender }
    }

    /// Runs the notifier up to its next suspension point: when an edge
    /// has fired it consumes the edge and writes to the latch once, which
    /// makes every task that waits on the latch runnable; otherwise the
    /// task suspends on the edge and nothing else changes.
    pub fn step<const N: usize>(
        &self,
        edge: &mut EdgeSource,
        cell: &mut BroadcastCell<(), N>,
        scheduler: &mut Scheduler,
    ) -> (sent: bool)
        requires
            old(cell).wf(),
            old(cell).can_send(),
            old(scheduler).wf(),
            self.task() < old(scheduler).states().len(),
        ensures
            sent == old(edge).fired(),
            !final(edge).fired(),
            final(cell).wf(),
            final(cell)@ == if sent {
                old(cell)@.send(())
            } else {
                old(cell)@
            },
            final(scheduler).wf(),
            final(scheduler).cursor() == old(scheduler).cursor(),
            final(scheduler).states() == if sent {
                states_after_wake(old(scheduler).states(), WakeEvent::Sent)
            } else {
                states_after_poll(old(scheduler).states(), self.task(), true, Resource::Edge)
            },
    {
        match edge.wait_for_edge() {
            Poll::Ready(_) => {
                self.sender.send(cell, scheduler, ());
                true
            },
            Poll::Pending => {
                scheduler.suspend(self.task, Resource::Edge);
                false
            },
        }
    }
}

/// A cyclic sequence of effects, known by their numbers, and the place
/// in it that comes next.
pub struct Cycle {
    len: usize,
    position: usize,
}

impl Cycle {
    /// How many effects the sequence holds.
    pub closed spec fn len(&self) -> nat {
        self.len as nat
    }

    /// Which effect comes next.
    pub closed spec fn position(&self) -> nat {
        self.position as nat
    }

    /// The sequence is not empty and the position lies in it.
    pub open spec fn wf(&self) -> bool {
        self.position() < self.len()
    }

    /// The position after one effect: one further, and back to the start
    /// after the last.
    pub open spec fn next_position(&self) -> nat {
        if self.position() + 1 == self.len() {
            0
        } else {
            self.position() + 1
        }
    }

    /// A sequence of `len` effects that starts with the first.
    pub fn new(len: usize) -> (cycle: Cycle)
        requires
            len > 0,
        ensures
            cycle.wf(),
            cycle.len() == len,
            cycle.position() == 0,
    {
        Cycle { len, position: 0 }
    }

    /// Which effect comes next.
    pub fn peek(&self) -> (effect: usize)
        ensures
            effect == self.position(),
    {
        self.position
    }

    /// Takes the effect that comes next and moves on.
    pub fn advance(&mut self) -> (effect: usize)
        requires
            old(self).wf(),
        ensures
            final(self).wf(),
            final(self).len() == old(self).len(),
            effect == old(self).position(),
            final(self).position() == old(self).next_position(),
    {
        let effect = self.position;
        self.position = if self.position + 1 == self.len {
            0
        } else {
            self.position + 1
        };
        effect
    }
}

/// A reader task: answers each observed write with the next effect of a
/// private, cyclic sequence of effects.
pub struct Consumer {
    task: usize,
    reader: ReaderHandle,
    cycle: Cycle,
}

impl Consumer {
    /// The number of the task that runs this consumer.
    pub closed spec fn task(&self) -> int {
        self.task as int
    }

    /// The latch slot that this consumer reads.
    pub closed spec fn slot(&self) -> int {
        self.reader.slot()
    }

    /// The consumer's sequence of effects.
    pub closed spec fn cycle(&self) -> Cycle {
        self.cycle
    }

    /// How many effects the sequence holds.
    pub open spec fn effects(&self) -> nat {
        self.cycle().len()
    }

    /// Which effect the next observed write triggers.
    pub open spec fn position(&self) -> nat {
        self.cycle().position()
    }

    /// The sequence is not empty and the position lies in it.
    pub open spec fn wf(&self) -> bool {
        self.cycle().wf()
    }

    /// The position after one effect: one further, and back to the start
    /// after the last.
    pub open spec fn next_position(&self) -> nat {
        self.cycle().next_position()
    }

    /// A consumer for task `task` that reads through `reader` and cycles
    /// through `effects` effects, starting with the first.
    pub fn new(task: usize, reader: ReaderHandle, effects: usize) -> (consumer: Consumer)
        requires
            effects > 0,
        ensures
            consumer.wf(),
            consumer.task() == task,
            consumer.slot() == reader.slot(),
            consumer.effects() == effects,
            consumer.position() == 0,
    {
        Consumer { task, reader, cycle: Cycle::new(effects) }
    }

    /// Which effect the next observed write triggers.
    pub fn next_effect(&self) -> (position: usize)
        ensures
            position == self.position(),
    {
        self.cycle.peek()
    }

    /// Runs the consumer up to its next suspension point.
    ///
    /// When a write happened since this consumer last looked, it returns
    /// the one effect to apply and moves on in its sequence; its reader has
    /// then caught up. Otherwise the task suspends on the latch and the
    /// sequence stays where it is.
    pub fn step<T: Copy, const N: usize>(
        &mut self,
        cell: &mut BroadcastCell<T, N>,
        scheduler: &mut Scheduler,
    ) -> (effect: Option<usize>)
        requires
            old(self).wf(),
            old(cell).wf(),
            old(cell)@.has_reader(old(self).slot()),
            old(scheduler).wf(),
            old(self).task() < old(scheduler).states().len(),
        ensures
            final(self).wf(),
            final(self).task() == old(self).task(),
            final(self).slot() == old(self).slot(),
            final(self).effects() == old(self).effects(),
            final(cell).wf(),
            final(cell)@ == old(cell)@.mark_observed(old(self).slot()),
            final(scheduler).wf(),
            final(scheduler).cursor() == old(scheduler).cursor(),
            final(scheduler).states() == states_after_poll(
                old(scheduler).states(),
                old(self).task(),
                effect is None,
                Resource::Latch,
            ),
            effect is Some <==> old(cell)@.observe(old(self).slot()) is Ready,
            effect is Some ==> effect->Some_0 == old(self).position(),
            final(self).position() == if effect is Some {
                old(self).next_position()
            } else {
                old(self).position()
            },
    {
        match self.reader.changed(cell, scheduler, self.task) {
            Poll::Ready(_) => Some(self.cycle.advance()),
            Poll::Pending => None,
        }
    }
}

/// A timed task: completes once per period and suspends in between.
pub struct Ticker {
    task: usize,
    timeout: Timeout,
    period: u64,
}

impl Ticker {
    /// The number of the task that runs this ticker.
    pub closed spec fn task(&self) -> int {
        self.task as int
    }

    /// The tick at which the ticker next completes.
    pub closed spec fn due(&self) -> nat {
        self.timeout.deadline()
    }

    /// How many ticks lie between two completions.
    pub closed spec fn period(&self) -> nat {
        self.period as nat
    }

    /// A ticker for task `task` that completes at once and then every
    /// `period` ticks.
    pub fn new(task: usize, now: u64, period: u64) -> (ticker: Ticker)
        ensures
            ticker.task() == task,
            ticker.due() == now,
            ticker.period() == period,
    {
        Ticker { task, timeout: Timeout::after(now, 0), period }
    }

    /// The tick at which the ticker next completes.
    pub fn due_at(&self) -> (tick: u64)
        ensures
            tick == self.due(),
    {
        self.timeout.expires_at()
    }

    /// The timer interrupt at tick `now`: from the due tick on, it makes
    /// the ticker's task runnable if it is suspended on its timeout, and
    /// says so.
    pub fn tick(&self, scheduler: &mut Scheduler, now: u64) -> (expired: bool)
        requires
            old(scheduler).wf(),
        ensures
            expired == (now >= self.due()),
            final(scheduler).wf(),
            final(scheduler).cursor() == old(scheduler).cursor(),
            final(scheduler).states() == if expired {
                states_after_wake(
                    old(scheduler).states(),
                    WakeEvent::TimerExpired(self.task() as usize),
                )
            } else {
                old(scheduler).states()
            },
    {
        self.timeout.expire(scheduler, self.task, now)
    }

    /// Runs the ticker at tick `now` up to its next suspension point:
    /// true, with the next completion one period from now, when it was
    /// due; otherwise false, and the task suspends on its timeout.
    pub fn step(&mut self, scheduler: &mut Scheduler, now: u64) -> (due: bool)
        requires
            old(scheduler).wf(),
            old(self).task() < old(scheduler).states().len(),
            now + old(self).period() <= u64::MAX,
        ensures
            due == (now >= old(self).due()),
            final(self).task() == old(self).task(),
            final(self).period() == old(self).period(),
            final(self).due() == if due {
                now + old(self).period()
            } else {
                old(self).due() as int
            },
            final(scheduler).wf(),
            final(scheduler).cursor() == old(scheduler).cursor(),
            final(scheduler).states() == states_after_poll(
                old(scheduler).states(),
                old(self).task(),
                !due,
                Resource::Timeout,
            ),
    {
        match self.timeout.poll(now) {
            Poll::Ready(_) => {
                self.timeout = Timeout::after(now, self.period);
                true
            },
            Poll::Pending => {
                scheduler.suspend(self.task, Resource::Timeout);
                false
            },
        }
    }
}

} // verus!
