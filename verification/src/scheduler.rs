//! A cooperative, single-core scheduler over a fixed set of tasks. At most
//! one task runs at a time, and it runs until it suspends on a resource;
//! a wake event makes the tasks that wait for it runnable again; runnable
//! tasks are resumed round-robin, starting in spawn order.

use vstd::prelude::*;

verus! {

/// What a suspended task waits for.
#[derive(Clone, Copy, Debug, PartialEq, Eq, Structural)]
pub enum Resource {
    /// An edge on the event source.
    Edge,
    /// The expiry of the task's own timeout.
    Timeout,
    /// Whichever of the edge and the task's own timeout comes first.
    Race,
    /// The next write to the broadcast latch.
    Latch,
}

/// Something that makes suspended tasks runnable.
#[derive(Clone, Copy, Debug, PartialEq, Eq, Structural)]
pub enum WakeEvent {
    /// The event source saw its edge.
    EdgeFired,
    /// The timeout of the given task expired.
    TimerExpired(usize),
    /// The writer wrote to the broadcast latch.
    Sent,
}

/// The scheduling state of one task.
#[derive(Clone, Copy, Debug, PartialEq, Eq, Structural)]
pub enum TaskState {
    /// Ready to be resumed.
    Runnable,
    /// In control of the core, until it reaches a suspension point.
    Running,
    /// Waiting for a resource.
    Suspended(Resource),
    /// Finished for good.
    Terminated,
}

/// Whether `event` makes task number `task`, in state `state`, runnable.
pub open spec fn wakes(event: WakeEvent, task: int, state: TaskState) -> bool {
    match (event, state) {
        (WakeEvent::EdgeFired, TaskState::Suspended(Resource::Edge)) => true,
        (WakeEvent::EdgeFired, TaskState::Suspended(Resource::Race)) => true,
        (WakeEvent::TimerExpired(owner), TaskState::Suspended(Resource::Timeout)) => owner == task,
        (WakeEvent::TimerExpired(owner), TaskState::Suspended(Resource::Race)) => owner == task,
        (WakeEvent::Sent, TaskState::Suspended(Resource::Latch)) => true,
        _ => false,
    }
}

/// The state of task number `task` after `event`.
pub open spec fn after_wake(event: WakeEvent, task: int, state: TaskState) -> TaskState {
    if wakes(event, task, state) {
        TaskState::Runnable
    } else {
        state
    }
}

/// The states of all tasks after `event`.
pub open spec fn states_after_wake(states: Seq<TaskState>, event: WakeEvent) -> Seq<TaskState> {
    Seq::new(states.len(), |task: int| after_wake(event, task, states[task]))
}

/// The states of all tasks after the task `task` has evaluated a
/// suspension point on `on`: suspended there while the operation is
/// pending, untouched when it completed.
pub open spec fn states_after_poll(
    states: Seq<TaskState>,
    task: int,
    pending: bool,
    on: Resource,
) -> Seq<TaskState> {
    if pending {
        states.update(task, TaskState::Suspended(on))
    } else {
        states
    }
}

/// How many places after `cursor` the task `task` comes in the round of
/// `count` tasks.
pub open spec fn turn_distance(cursor: int, count: int, task: int) -> int {
    if task >= cursor {
        task - cursor
    } else {
        task + count - cursor
    }
}

/// Where the round continues after `task` has been resumed.
pub open spec fn cursor_after(count: int, task: int) -> int {
    if task + 1 == count {
        0
    } else {
        task + 1
    }
}

/// Whether `task` is the runnable task that comes first in the round
/// that starts at `cursor`.
pub open spec fn is_next(states: Seq<TaskState>, cursor: int, task: int) -> bool {
    &&& 0 <= task < states.len()
    &&& states[task] == TaskState::Runnable
    &&& forall|other: int|
        0 <= other < states.len() && #[trigger] states[other] == TaskState::Runnable
            ==> turn_distance(cursor, states.len() as int, task) <= turn_distance(
            cursor,
            states.len() as int,
            other,
        )
}

/// Whether `task` is in control of the core.
pub open spec fn is_running(states: Seq<TaskState>, task: int) -> bool {
    0 <= task < states.len() && states[task] == TaskState::Running
}

/// Whether no task is in control of the core.
pub open spec fn core_free(states: Seq<TaskState>) -> bool {
    forall|task: int| 0 <= task < states.len() ==> #[trigger] states[task] != TaskState::Running
}

/// Whether no two tasks are in control of the core.
pub open spec fn single_core(states: Seq<TaskState>) -> bool {
    forall|one: int, other: int|
        is_running(states, one) && is_running(states, other) ==> one == other
}

/// Whether no task is runnable.
pub open spec fn all_idle(states: Seq<TaskState>) -> bool {
    forall|task: int| 0 <= task < states.len() ==> #[trigger] states[task] != TaskState::Runnable
}

/// The executor's bookkeeping: one state per task, in spawn order, and
/// the place where the round continues.
pub struct Scheduler {
    tasks: Vec<TaskState>,
    cursor: usize,
    running: Option<usize>,
}

impl Scheduler {
    /// The state of each task, in spawn order.
    pub closed spec fn states(&self) -> Seq<TaskState> {
        self.tasks@
    }

    /// The task with which the round continues.
    pub closed spec fn cursor(&self) -> int {
        self.cursor as int
    }

    /// Whether the scheduler's note of the running task matches the states.
    pub closed spec fn tracks_running(&self) -> bool {
        match self.running {
            Some(task) => is_running(self.tasks@, task as int),
            None => core_free(self.tasks@),
        }
    }

    /// The cursor names a task, or no task exists yet; and at most one
    /// task is running.
    pub open spec fn wf(&self) -> bool {
        &&& 0 <= self.cursor() < self.states().len() || (self.cursor() == 0
            && self.states().len() == 0)
        &&& single_core(self.states())
        &&& self.tracks_running()
    }

    /// A scheduler without tasks.
    pub fn new() -> (scheduler: Scheduler)
        ensures
            scheduler.wf(),
            scheduler.states() == Seq::<TaskState>::empty(),
            scheduler.cursor() == 0,
    {
        Scheduler { tasks: Vec::new(), cursor: 0, running: None }
    }

    /// Adds a runnable task behind those that exist and returns its number.
    pub fn spawn(&mut self) -> (task: usize)
        requires
            old(self).wf(),
        ensures
            final(self).wf(),
            task == old(self).states().len(),
            final(self).states() == old(self).states().push(TaskState::Runnable),
            final(self).cursor() == old(self).cursor(),
    {
        let task = self.tasks.len();
        self.tasks.push(TaskState::Runnable);
        proof {
            assert forall|other: int| is_running(self.tasks@, other) implies is_running(
                old(self).tasks@,
                other,
            ) by {}
        }
        task
    }

    /// How many tasks exist.
    pub fn task_count(&self) -> (count: usize)
        ensures
            count == self.states().len(),
    {
        self.tasks.len()
    }

    /// The state of `task`.
    pub fn state(&self, task: usize) -> (state: TaskState)
        requires
            task < self.states().len(),
        ensures
            state == self.states()[task as int],
    {
        self.tasks[task]
    }

    /// The task `task` reaches a suspension point on `on` and gives up
    /// the core if it had it.
    pub fn suspend(&mut self, task: usize, on: Resource)
        requires
            old(self).wf(),
            task < old(self).states().len(),
        ensures
            final(self).wf(),
            final(self).states() == old(self).states().update(
                task as int,
                TaskState::Suspended(on),
            ),
            final(self).cursor() == old(self).cursor(),
    {
        self.park(task, TaskState::Suspended(on));
    }

    /// The task `task` ends and is never resumed again.
    pub fn terminate(&mut self, task: usize)
        requires
            old(self).wf(),
            task < old(self).states().len(),
        ensures
            final(self).wf(),
            final(self).states() == old(self).states().update(task as int, TaskState::Terminated),
            final(self).cursor() == old(self).cursor(),
    {
        self.park(task, TaskState::Terminated);
    }

    /// Puts `task` into a state in which it does not run.
    fn park(&mut self, task: usize, state: TaskState)
        requires
            old(self).wf(),
            task < old(self).states().len(),
            state != TaskState::Running,
        ensures
            final(self).wf(),
            final(self).states() == old(self).states().update(task as int, state),
            final(self).cursor() == old(self).cursor(),
    {
        self.tasks.set(task, state);
        match self.running {
            Some(running) => {
                if running == task {
                    self.running = None;
                    assert forall|other: int|
                        0 <= other < self.tasks@.len() implies #[trigger] self.tasks@[other]
                        != TaskState::Running by {
                        if other != task {
                            assert(!is_running(old(self).tasks@, other));
                        }
                    }
                }
            },
            None => {},
        }
        assert forall|one: int, other: int|
            is_running(self.tasks@, one) && is_running(self.tasks@, other) implies one
            == other by {
            assert(is_running(old(self).tasks@, one));
            assert(is_running(old(self).tasks@, other));
        }
    }

    /// Marks runnable every task that waits for `event`, and changes no
    /// other task.
    pub fn wake(&mut self, event: WakeEvent)
        requires
            old(self).wf(),
        ensures
            final(self).wf(),
            final(self).cursor() == old(self).cursor(),
            final(self).states() == states_after_wake(old(self).states(), event),
    {
        let count = self.tasks.len();
        let mut task: usize = 0;
        while task < count
            invariant
                task <= count,
                count == self.tasks@.len(),
                self.cursor == old(self).cursor,
                self.running == old(self).running,
                self.tasks@.len() == old(self).tasks@.len(),
                forall|done: int|
                    0 <= done < task ==> #[trigger] self.tasks@[done] == after_wake(
                        event,
                        done,
                        old(self).tasks@[done],
                    ),
                forall|rest: int|
                    task <= rest < count ==> #[trigger] self.tasks@[rest] == old(self).tasks@[rest],
            decreases count - task,
        {
            let woken = match (event, self.tasks[task]) {
                (WakeEvent::EdgeFired, TaskState::Suspended(Resource::Edge)) => true,
                (WakeEvent::EdgeFired, TaskState::Suspended(Resource::Race)) => true,
                (WakeEvent::TimerExpired(owner), TaskState::Suspended(Resource::Timeout)) => owner
                    == task,
                (WakeEvent::TimerExpired(owner), TaskState::Suspended(Resource::Race)) => owner
                    == task,
                (WakeEvent::Sent, TaskState::Suspended(Resource::Latch)) => true,
                _ => false,
            };
            if woken {
                self.tasks.set(task, TaskState::Runnable);
            }
            task = task + 1;
        }
        assert(self.tasks@ =~= states_after_wake(old(self).tasks@, event));
        assert forall|other: int| is_running(self.tasks@, other) implies is_running(
            old(self).tasks@,
            other,
        ) by {}
        assert forall|other: int| is_running(old(self).tasks@, other) implies is_running(
            self.tasks@,
            other,
        ) by {}
    }

    /// Says which task has the core next. A running task keeps it: no task
    /// is preempted. Otherwise the first runnable task in the round that
    /// starts at the cursor gets it, and the round continues behind that
    /// task. Nobody gets it exactly when no task is running or runnable.
    pub fn next(&mut self) -> (picked: Option<usize>)
        requires
            old(self).wf(),
        ensures
            final(self).wf(),
            picked is None <==> core_free(old(self).states()) && all_idle(old(self).states()),
            picked is None ==> final(self).states() == old(self).states() && final(self).cursor()
                == old(self).cursor(),
            picked is Some && !core_free(old(self).states()) ==> {
                &&& is_running(old(self).states(), picked->Some_0 as int)
                &&& final(self).states() == old(self).states()
                &&& final(self).cursor() == old(self).cursor()
            },
            picked is Some && core_free(old(self).states()) ==> {
                &&& is_next(old(self).states(), old(self).cursor(), picked->Some_0 as int)
                &&& final(self).states() == old(self).states().update(
                    picked->Some_0 as int,
                    TaskState::Running,
                )
                &&& final(self).cursor() == cursor_after(
                    old(self).states().len() as int,
                    picked->Some_0 as int,
                )
            },
    {
        match self.running {
            Some(task) => {
                return Some(task);
            },
            None => {},
        }
        let count = self.tasks.len();
        let start = self.cursor;
        let mut step: usize = 0;
        while step < count
            invariant
                step <= count,
                count == self.tasks@.len(),
                start == self.cursor,
                *self == *old(self),
                self.wf(),
                self.running is None,
                forall|other: int|
                    0 <= other < count && turn_distance(start as int, count as int, other) < step
                        ==> #[trigger] self.tasks@[other] != TaskState::Runnable,
            decreases count - step,
        {
            let task = if step < count - start {
                start + step
            } else {
                step - (count - start)
            };
            assert(turn_distance(start as int, count as int, task as int) == step);
            match self.tasks[task] {
                TaskState::Runnable => {
                    self.tasks.set(task, TaskState::Running);
                    self.running = Some(task);
                    self.cursor = if task + 1 == count {
                        0
                    } else {
                        task + 1
                    };
                    assert forall|one: int, other: int|
                        is_running(self.tasks@, one) && is_running(
                            self.tasks@,
                            other,
                        ) implies one == other by {
                        if one != task {
                            assert(old(self).tasks@[one] == TaskState::Running);
                        }
                        if other != task {
                            assert(old(self).tasks@[other] == TaskState::Running);
                        }
                    }
                    return Some(task);
                },
                _ => {
                    assert forall|other: int|
                        0 <= other < count && turn_distance(start as int, count as int, other)
                            < step + 1 implies #[trigger] self.tasks@[other]
                        != TaskState::Runnable by {
                        if turn_distance(start as int, count as int, other) == step {
                            assert(other == task);
                        }
                    }
                },
            }
            step = step + 1;
        }
        assert forall|other: int| 0 <= other < count implies #[trigger] self.tasks@[other]
            != TaskState::Runnable by {
            assert(turn_distance(start as int, count as int, other) < count);
        }
        None
    }
}

/// Round-robin is fair: each time another task is picked, every runnable
/// task that is passed over moves closer to its turn, so it is picked
/// after at most as many picks as there are tasks.
pub proof fn lemma_round_robin_progress(
    states: Seq<TaskState>,
    cursor: int,
    picked: int,
    waiting: int,
)
    requires
        0 <= cursor < states.len(),
        is_next(states, cursor, picked),
        0 <= waiting < states.len(),
        states[waiting] == TaskState::Runnable,
        waiting != picked,
    ensures
        turn_distance(cursor_after(states.len() as int, picked), states.len() as int, waiting)
            < turn_distance(cursor, states.len() as int, waiting),
        0 <= turn_distance(cursor, states.len() as int, waiting) < states.len(),
{
}

/// A task that waits on the latch is made runnable by a write and by
/// nothing else; a task that waits on a race, by the edge and by its own
/// timeout and by nothing else.
pub proof fn lemma_wake_sources(event: WakeEvent, task: int)
    ensures
        wakes(event, task, TaskState::Suspended(Resource::Latch)) <==> event == WakeEvent::Sent,
        wakes(event, task, TaskState::Suspended(Resource::Race)) <==> (event == WakeEvent::EdgeFired
            || event == WakeEvent::TimerExpired(task as usize) && 0 <= task <= usize::MAX),
        !wakes(event, task, TaskState::Runnable),
        !wakes(event, task, TaskState::Running),
        !wakes(event, task, TaskState::Terminated),
{
}

/// Tasks start in spawn order: while every task is runnable, the task at
/// the cursor is the one picked.
pub proof fn lemma_spawn_order(states: Seq<TaskState>, cursor: int)
    requires
        0 <= cursor < states.len(),
        states[cursor] == TaskState::Runnable,
    ensures
        is_next(states, cursor, cursor),
{
}

} // verus!
