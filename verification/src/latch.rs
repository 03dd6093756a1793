//! The broadcast latch: one writer, a fixed number of readers, one
//! buffered value. A write bumps a version counter; each reader keeps
//! the version it last observed and is told of a change exactly when
//! that version is behind.

use vstd::prelude::*;
use crate::poll::Poll;
use crate::scheduler::{Resource, Scheduler, WakeEvent, states_after_poll, states_after_wake};

verus! {

/// The mathematical state of a latch.
pub struct LatchState<T> {
    /// The most recently written value, if any write has happened.
    pub value: Option<T>,
    /// How many writes have happened.
    pub version: nat,
    /// For each reader issued so far, the version it last observed.
    pub seen: Seq<nat>,
    /// How many readers the latch was configured for.
    pub capacity: nat,
    /// Whether the writer endpoint has been handed out.
    pub writer_issued: bool,
}

impl<T> LatchState<T> {
    /// A latch configured for `capacity` readers, before any activity.
    pub open spec fn fresh(capacity: nat) -> Self {
        LatchState {
            value: None,
            version: 0,
            seen: Seq::empty(),
            capacity,
            writer_issued: false,
        }
    }

    /// No reader is ahead of the writer, no more readers exist than were
    /// configured, and a value is stored exactly when something was written.
    pub open spec fn wf(self) -> bool {
        &&& self.seen.len() <= self.capacity
        &&& forall|i: int| 0 <= i < self.seen.len() ==> #[trigger] self.seen[i] <= self.version
        &&& (self.value is Some <==> self.version > 0)
    }

    /// Whether `reader` names a reader that has been issued.
    pub open spec fn has_reader(self, reader: int) -> bool {
        0 <= reader < self.seen.len()
    }

    /// Whether another reader can still be issued.
    pub open spec fn can_issue_reader(self) -> bool {
        self.seen.len() < self.capacity
    }

    /// The state after a request for a reader: a new reader that has
    /// observed nothing, or no change once all readers are out.
    pub open spec fn issue_reader(self) -> Self {
        if self.can_issue_reader() {
            LatchState { seen: self.seen.push(0), ..self }
        } else {
            self
        }
    }

    /// The state after the writer endpoint has been requested.
    pub open spec fn issue_writer(self) -> Self {
        LatchState { writer_issued: true, ..self }
    }

    /// The state after writing `value`.
    pub open spec fn send(self, value: T) -> Self {
        LatchState { value: Some(value), version: self.version + 1, ..self }
    }

    /// The state after writing each of `values` in order.
    pub open spec fn send_all(self, values: Seq<T>) -> Self
        decreases values.len(),
    {
        if values.len() == 0 {
            self
        } else {
            self.send_all(values.drop_last()).send(values.last())
        }
    }

    /// Whether a write has happened that `reader` has not observed.
    pub open spec fn behind(self, reader: int) -> bool {
        self.seen[reader] < self.version
    }

    /// What one evaluation of `changed` yields for `reader`: the latest
    /// value if the reader is behind, otherwise nothing yet.
    pub open spec fn observe(self, reader: int) -> Poll<T> {
        if self.behind(reader) && self.value is Some {
            Poll::Ready(self.value->Some_0)
        } else {
            Poll::Pending
        }
    }

    /// The state after one evaluation of `changed` for `reader`: the
    /// reader has caught up, and nothing else has moved.
    pub open spec fn mark_observed(self, reader: int) -> Self {
        if self.behind(reader) && self.value is Some {
            LatchState { seen: self.seen.update(reader, self.version), ..self }
        } else {
            self
        }
    }
}

/// The single writer endpoint of a latch.
pub struct Sender {
    unit: (),
}

/// One reader's exclusive position in a latch.
#[derive(Debug)]
pub struct ReaderHandle {
    index: usize,
}

impl ReaderHandle {
    /// The slot of the latch that this handle owns.
    pub closed spec fn slot(&self) -> int {
        self.index as int
    }

    /// The slot of the latch that this handle owns.
    pub fn index(&self) -> (index: usize)
        ensures
            index == self.slot(),
    {
        self.index
    }
}

/// Why a latch endpoint could not be handed out.
#[derive(Clone, Copy, Debug, PartialEq, Eq, Structural)]
pub enum LatchError {
    /// Every configured reader has already been issued.
    ExhaustedReaders,
    /// The writer endpoint has already been issued.
    MisconfiguredWriter,
}

/// A single-writer, multi-reader notification cell for at most `N` readers.
pub struct BroadcastCell<T, const N: usize> {
    value: Option<T>,
    version: u64,
    reader_count: usize,
    seen: Vec<u64>,
    writer_issued: bool,
}

impl<T: Copy, const N: usize> View for BroadcastCell<T, N> {
    type V = LatchState<T>;

    closed spec fn view(&self) -> LatchState<T> {
        LatchState {
            value: self.value,
            version: self.version as nat,
            seen: Seq::new(self.seen@.len(), |i: int| self.seen@[i] as nat),
            capacity: self.reader_count as nat,
            writer_issued: self.writer_issued,
        }
    }
}

impl<T: Copy, const N: usize> BroadcastCell<T, N> {
    /// The latch's invariant: its state is well formed and within the
    /// static capacity `N`.
    pub open spec fn wf(&self) -> bool {
        &&& self@.wf()
        &&& self@.capacity <= N
        &&& self@.version <= u64::MAX
    }

    /// Whether one more write fits the version counter.
    pub open spec fn can_send(&self) -> bool {
        self@.version < u64::MAX
    }

    /// A latch for `reader_count` readers, or nothing when that exceeds
    /// the static capacity `N`.
    pub fn new(reader_count: usize) -> (cell: Option<Self>)
        ensures
            cell is Some <==> reader_count <= N,
            cell is Some ==> cell->Some_0.wf() && cell->Some_0@ == LatchState::<T>::fresh(
                reader_count as nat,
            ),
    {
        if reader_count > N {
            return None;
        }
        let cell = BroadcastCell {
            value: None,
            version: 0,
            reader_count,
            seen: Vec::new(),
            writer_issued: false,
        };
        assert(cell@.seen =~= Seq::empty());
        Some(cell)
    }

    /// Hands out the next reader, until as many as were configured are out.
    pub fn reader(&mut self) -> (handle: Option<ReaderHandle>)
        requires
            old(self).wf(),
        ensures
            final(self).wf(),
            final(self)@ == old(self)@.issue_reader(),
            handle is Some <==> old(self)@.can_issue_reader(),
            handle is Some ==> handle->Some_0.slot() == old(self)@.seen.len(),
    {
        if self.seen.len() < self.reader_count {
            let index = self.seen.len();
            self.seen.push(0);
            assert(self@.seen =~= old(self)@.seen.push(0));
            Some(ReaderHandle { index })
        } else {
            None
        }
    }

    /// Hands out the next reader, or reports that none is left: for
    /// start-up code, to which a missing reader is a configuration error.
    pub fn require_reader(&mut self) -> (handle: Result<ReaderHandle, LatchError>)
        requires
            old(self).wf(),
        ensures
            final(self).wf(),
            final(self)@ == old(self)@.issue_reader(),
            handle is Ok <==> old(self)@.can_issue_reader(),
            handle is Ok ==> handle->Ok_0.slot() == old(self)@.seen.len(),
            handle is Err ==> handle->Err_0 == LatchError::ExhaustedReaders,
    {
        match self.reader() {
            Some(handle) => Ok(handle),
            None => Err(LatchError::ExhaustedReaders),
        }
    }

    /// Hands out the writer endpoint, once.
    pub fn writer(&mut self) -> (sender: Result<Sender, LatchError>)
        requires
            old(self).wf(),
        ensures
            final(self).wf(),
            final(self)@ == old(self)@.issue_writer(),
            sender is Ok <==> !old(self)@.writer_issued,
            sender is Err ==> sender->Err_0 == LatchError::MisconfiguredWriter,
    {
        if self.writer_issued {
            Err(LatchError::MisconfiguredWriter)
        } else {
            self.writer_issued = true;
            Ok(Sender { unit: () })
        }
    }

    /// How many writes have happened.
    pub fn version(&self) -> (version: u64)
        ensures
            version == self@.version,
    {
        self.version
    }

    /// How many readers have been issued.
    pub fn readers_issued(&self) -> (count: usize)
        ensures
            count == self@.seen.len(),
    {
        self.seen.len()
    }

    /// How many readers the latch was configured for.
    pub fn reader_capacity(&self) -> (count: usize)
        ensures
            count == self@.capacity,
    {
        self.reader_count
    }
}

impl Sender {
    /// Stores `value` in `cell` and advances its version, so that every
    /// reader is behind until it next looks, and makes every task that is
    /// suspended on the latch runnable.
    pub fn send<T: Copy, const N: usize>(
        &self,
        cell: &mut BroadcastCell<T, N>,
        scheduler: &mut Scheduler,
        value: T,
    )
        requires
            old(cell).wf(),
            old(cell).can_send(),
            old(scheduler).wf(),
        ensures
            final(cell).wf(),
            final(cell)@ == old(cell)@.send(value),
            final(scheduler).wf(),
            final(scheduler).cursor() == old(scheduler).cursor(),
            final(scheduler).states() == states_after_wake(
                old(scheduler).states(),
                WakeEvent::Sent,
            ),
    {
        cell.value = Some(value);
        cell.version = cell.version + 1;
        assert(cell@.seen =~= old(cell)@.seen);
        scheduler.wake(WakeEvent::Sent);
    }
}

impl ReaderHandle {
    /// One evaluation, by the task `task`, of "has the value
    /// changed since I last looked": ready with the latest value when a
    /// write happened since this reader's last observation, after which
    /// the reader has caught up; pending otherwise, and the task is then
    /// suspended on the latch.
    pub fn changed<T: Copy, const N: usize>(
        &mut self,
        cell: &mut BroadcastCell<T, N>,
        scheduler: &mut Scheduler,
        task: usize,
    ) -> (seen: Poll<T>)
        requires
            old(cell).wf(),
            old(cell)@.has_reader(old(self).slot()),
            old(scheduler).wf(),
            task < old(scheduler).states().len(),
        ensures
            final(self).slot() == old(self).slot(),
            final(cell).wf(),
            seen == old(cell)@.observe(old(self).slot()),
            final(cell)@ == old(cell)@.mark_observed(old(self).slot()),
            final(scheduler).wf(),
            final(scheduler).cursor() == old(scheduler).cursor(),
            final(scheduler).states() == states_after_poll(
                old(scheduler).states(),
                task as int,
                seen is Pending,
                Resource::Latch,
            ),
    {
        let last = cell.seen[self.index];
        if last < cell.version {
            match cell.value {
                Some(value) => {
                    let current = cell.version;
                    cell.seen.set(self.index, current);
                    assert(cell@.seen =~= old(cell)@.seen.update(self.index as int, current as nat));
                    Poll::Ready(value)
                },
                None => {
                    scheduler.suspend(task, Resource::Latch);
                    Poll::Pending
                },
            }
        } else {
            scheduler.suspend(task, Resource::Latch);
            Poll::Pending
        }
    }
}

} // verus!
