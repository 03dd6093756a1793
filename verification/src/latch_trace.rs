//! Histories of a latch: what holds after any sequence of operations.

use vstd::prelude::*;
use crate::latch::LatchState;
use crate::poll::Poll;

verus! {

/// One operation on a latch.
pub enum LatchOp<T> {
    /// The writer stores a value.
    Send(T),
    /// A reader evaluates `changed` once.
    Changed(int),
    /// A reader is requested.
    Reader,
    /// The writer endpoint is requested.
    Writer,
}

impl<T> LatchState<T> {
    /// The state after one operation. An evaluation of `changed` for a
    /// reader that was never issued is no operation.
    pub open spec fn apply(self, op: LatchOp<T>) -> Self {
        match op {
            LatchOp::Send(value) => self.send(value),
            LatchOp::Changed(reader) => if self.has_reader(reader) {
                self.mark_observed(reader)
            } else {
                self
            },
            LatchOp::Reader => self.issue_reader(),
            LatchOp::Writer => self.issue_writer(),
        }
    }

    /// The state after each of `ops` in order.
    pub open spec fn run(self, ops: Seq<LatchOp<T>>) -> Self
        decreases ops.len(),
    {
        if ops.len() == 0 {
            self
        } else {
            self.run(ops.drop_last()).apply(ops.last())
        }
    }
}

/// Whether no operation in `ops` is a write.
pub open spec fn no_sends<T>(ops: Seq<LatchOp<T>>) -> bool {
    forall|i: int| 0 <= i < ops.len() ==> !(#[trigger] ops[i] is Send)
}

/// Whether `ops` holds nothing but evaluations of `changed` by readers
/// other than `reader`.
pub open spec fn only_other_readers<T>(ops: Seq<LatchOp<T>>, reader: int) -> bool {
    forall|i: int|
        0 <= i < ops.len() ==> (#[trigger] ops[i] is Changed) && ops[i]->Changed_0 != reader
}

/// Whether `reader` never evaluates `changed` in `ops`.
pub open spec fn reader_idle<T>(ops: Seq<LatchOp<T>>, reader: int) -> bool {
    forall|i: int|
        0 <= i < ops.len() ==> !((#[trigger] ops[i]) is Changed && ops[i]->Changed_0 == reader)
}

/// The history `ops` without the evaluations of `changed` by readers
/// other than `reader`.
pub open spec fn without_other_readers<T>(ops: Seq<LatchOp<T>>, reader: int) -> Seq<LatchOp<T>>
    decreases ops.len(),
{
    if ops.len() == 0 {
        ops
    } else if ops.last() is Changed && ops.last()->Changed_0 != reader {
        without_other_readers(ops.drop_last(), reader)
    } else {
        without_other_readers(ops.drop_last(), reader).push(ops.last())
    }
}

/// How many of `ops` request a reader.
pub open spec fn readers_requested<T>(ops: Seq<LatchOp<T>>) -> nat
    decreases ops.len(),
{
    if ops.len() == 0 {
        0
    } else {
        readers_requested(ops.drop_last()) + if ops.last() is Reader {
            1nat
        } else {
            0nat
        }
    }
}

/// Every operation keeps a well-formed latch well formed, keeps its
/// capacity, and keeps the readers it has issued.
pub proof fn lemma_apply_preserves<T>(s: LatchState<T>, op: LatchOp<T>)
    requires
        s.wf(),
    ensures
        s.apply(op).wf(),
        s.apply(op).capacity == s.capacity,
        s.apply(op).version >= s.version,
        s.apply(op).seen.len() >= s.seen.len(),
        forall|r: int| s.has_reader(r) ==> #[trigger] s.apply(op).seen[r] >= s.seen[r],
{
}

/// Every history keeps a well-formed latch well formed; versions, the
/// set of readers and each reader's last-seen version never go back.
pub proof fn lemma_run_preserves<T>(s: LatchState<T>, ops: Seq<LatchOp<T>>)
    requires
        s.wf(),
    ensures
        s.run(ops).wf(),
        s.run(ops).capacity == s.capacity,
        s.run(ops).version >= s.version,
        s.run(ops).seen.len() >= s.seen.len(),
        forall|r: int| s.has_reader(r) ==> #[trigger] s.run(ops).seen[r] >= s.seen[r],
    decreases ops.len(),
{
    if ops.len() > 0 {
        lemma_run_preserves(s, ops.drop_last());
        lemma_apply_preserves(s.run(ops.drop_last()), ops.last());
    }
}

/// Writing a sequence of values leaves the readers where they were,
/// advances the version once per value, and keeps the last value.
pub proof fn lemma_send_all<T>(s: LatchState<T>, values: Seq<T>)
    requires
        s.wf(),
    ensures
        s.send_all(values).wf(),
        s.send_all(values).seen == s.seen,
        s.send_all(values).capacity == s.capacity,
        s.send_all(values).writer_issued == s.writer_issued,
        s.send_all(values).version == s.version + values.len(),
        values.len() > 0 ==> s.send_all(values).value == Some(values.last()),
        values.len() == 0 ==> s.send_all(values) == s,
    decreases values.len(),
{
    if values.len() > 0 {
        lemma_send_all(s, values.drop_last());
    }
}

/// A reader that looks once after any number of writes gets the value of
/// the last write, never an earlier one.
pub proof fn lemma_latest_value_wins<T>(s: LatchState<T>, values: Seq<T>, reader: int)
    requires
        s.wf(),
        s.has_reader(reader),
        values.len() > 0,
    ensures
        s.send_all(values).observe(reader) == Poll::Ready(values.last()),
        s.send_all(values).mark_observed(reader).seen[reader] == s.version + values.len(),
{
    lemma_send_all(s, values);
}

/// While a reader does not look, the version it has seen stays.
pub proof fn lemma_idle_reader_keeps_its_place<T>(
    s: LatchState<T>,
    reader: int,
    ops: Seq<LatchOp<T>>,
)
    requires
        s.wf(),
        s.has_reader(reader),
        reader_idle(ops, reader),
    ensures
        s.run(ops).has_reader(reader),
        s.run(ops).seen[reader] == s.seen[reader],
    decreases ops.len(),
{
    if ops.len() > 0 {
        let front = ops.drop_last();
        assert(reader_idle(front, reader)) by {
            assert forall|i: int| 0 <= i < front.len() implies !((#[trigger] front[i]) is Changed
                && front[i]->Changed_0 == reader) by {
                assert(front[i] == ops[i]);
            }
        }
        lemma_idle_reader_keeps_its_place(s, reader, front);
        lemma_run_preserves(s, front);
        assert(!(ops[ops.len() - 1] is Changed && ops[ops.len() - 1]->Changed_0 == reader));
    }
}

/// Whatever happened before a write, and whatever the other readers do
/// after it, a reader that has not looked since is told of that write
/// when it looks, as long as no later write has replaced it.
pub proof fn lemma_latest_value_in_any_history<T>(
    s: LatchState<T>,
    before: Seq<LatchOp<T>>,
    value: T,
    after: Seq<LatchOp<T>>,
    reader: int,
)
    requires
        s.wf(),
        s.has_reader(reader),
        no_sends(after),
        reader_idle(after, reader),
    ensures
        s.run(before).send(value).run(after).observe(reader) == Poll::Ready(value),
{
    lemma_run_preserves(s, before);
    let written = s.run(before).send(value);
    assert(written.wf());
    assert(written.has_reader(reader));
    lemma_quiet_history(written, after);
    lemma_idle_reader_keeps_its_place(written, reader, after);
}

/// A reader that has looked is not told of a change again, whatever the
/// other readers do and whichever endpoints are requested, until the
/// writer writes; the first look after that write is told of it.
pub proof fn lemma_no_spurious_wake<T>(
    s: LatchState<T>,
    reader: int,
    ops: Seq<LatchOp<T>>,
    value: T,
)
    requires
        s.wf(),
        s.has_reader(reader),
        no_sends(ops),
    ensures
        s.mark_observed(reader).run(ops).observe(reader) == Poll::<T>::Pending,
        s.mark_observed(reader).run(ops).send(value).observe(reader) == Poll::Ready(value),
{
    let after = s.mark_observed(reader);
    assert(after.wf());
    lemma_quiet_history(after, ops);
    lemma_run_preserves(after, ops);
}

/// A history without writes keeps the version and the value.
pub proof fn lemma_quiet_history<T>(s: LatchState<T>, ops: Seq<LatchOp<T>>)
    requires
        s.wf(),
        no_sends(ops),
    ensures
        s.run(ops).version == s.version,
        s.run(ops).value == s.value,
    decreases ops.len(),
{
    if ops.len() > 0 {
        let front = ops.drop_last();
        assert(no_sends(front)) by {
            assert forall|i: int| 0 <= i < front.len() implies !(#[trigger] front[i] is Send) by {
                assert(front[i] == ops[i]);
            }
        }
        lemma_quiet_history(s, front);
        assert(!(ops[ops.len() - 1] is Send));
    }
}

/// What a reader is told when it looks does not depend on how often the
/// other readers have looked before it.
pub proof fn lemma_independent_fan_out<T>(s: LatchState<T>, reader: int, ops: Seq<LatchOp<T>>)
    requires
        s.wf(),
        s.has_reader(reader),
        only_other_readers(ops, reader),
    ensures
        s.run(ops).observe(reader) == s.observe(reader),
        s.run(ops).seen[reader] == s.seen[reader],
        s.run(ops).version == s.version,
        s.run(ops).value == s.value,
    decreases ops.len(),
{
    if ops.len() > 0 {
        let front = ops.drop_last();
        assert(only_other_readers(front, reader)) by {
            assert forall|i: int| 0 <= i < front.len() implies (#[trigger] front[i] is Changed)
                && front[i]->Changed_0 != reader by {
                assert(front[i] == ops[i]);
            }
        }
        lemma_independent_fan_out(s, reader, front);
        lemma_run_preserves(s, front);
        assert(ops[ops.len() - 1] is Changed);
    }
}

/// Whatever the writer and the readers do, and in whatever order, a
/// reader finds the latch as it would have found it had the other readers
/// never looked: what it is told next, and the version it has seen, are
/// the same with and without their evaluations of `changed`.
pub proof fn lemma_fan_out_in_any_history<T>(s: LatchState<T>, reader: int, ops: Seq<LatchOp<T>>)
    requires
        s.wf(),
        s.has_reader(reader),
    ensures
        s.run(ops).observe(reader) == s.run(without_other_readers(ops, reader)).observe(reader),
        s.run(ops).seen[reader] == s.run(without_other_readers(ops, reader)).seen[reader],
        s.run(ops).seen.len() == s.run(without_other_readers(ops, reader)).seen.len(),
        s.run(ops).version == s.run(without_other_readers(ops, reader)).version,
        s.run(ops).value == s.run(without_other_readers(ops, reader)).value,
        s.run(ops).capacity == s.run(without_other_readers(ops, reader)).capacity,
    decreases ops.len(),
{
    if ops.len() > 0 {
        let front = ops.drop_last();
        let kept = without_other_readers(front, reader);
        lemma_fan_out_in_any_history(s, reader, front);
        lemma_run_preserves(s, front);
        lemma_run_preserves(s, kept);
        if !(ops.last() is Changed && ops.last()->Changed_0 != reader) {
            assert(kept.push(ops.last()).drop_last() =~= kept);
            assert(kept.push(ops.last()).last() == ops.last());
        }
    }
}

/// Whatever else happens to a latch, it has issued as many readers as
/// were requested, up to its capacity and never more.
pub proof fn lemma_readers_issued<T>(s: LatchState<T>, ops: Seq<LatchOp<T>>)
    requires
        s.wf(),
    ensures
        s.run(ops).seen.len() == if s.seen.len() + readers_requested(ops) <= s.capacity {
            s.seen.len() + readers_requested(ops)
        } else {
            s.capacity
        },
    decreases ops.len(),
{
    if ops.len() > 0 {
        lemma_readers_issued(s, ops.drop_last());
        lemma_run_preserves(s, ops.drop_last());
    }
}

/// Once a new latch has been asked for as many readers as it was
/// configured for, the next request finds none left, whatever was
/// written or read in between.
pub proof fn lemma_reader_exhaustion<T>(capacity: nat, ops: Seq<LatchOp<T>>)
    requires
        readers_requested(ops) >= capacity,
    ensures
        !LatchState::<T>::fresh(capacity).run(ops).can_issue_reader(),
        LatchState::<T>::fresh(capacity).run(ops).issue_reader() == LatchState::<T>::fresh(
            capacity,
        ).run(ops),
{
    let start = LatchState::<T>::fresh(capacity);
    lemma_readers_issued(start, ops);
    lemma_run_preserves(start, ops);
}

} // verus!
