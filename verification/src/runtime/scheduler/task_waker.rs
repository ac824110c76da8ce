//! The waker of one poll of a task: holds the task while it is suspended and
//! hands it back to the scheduler, once, when the task is woken.

use vstd::prelude::*;

verus! {

/// What a task waker holds.
#[derive(Clone, Copy, Debug, PartialEq, Eq, Structural)]
pub struct WakerState {
    /// The suspended task, until it is rescheduled.
    pub slot: Option<usize>,
    /// Whether a wake has arrived.
    pub woken: bool,
}

/// An operation on a task waker, as it occurs in a history of the waker.
#[derive(Clone, Copy, Debug, PartialEq, Eq, Structural)]
pub enum WakerOp {
    /// The waker is invoked.
    Wake,
    /// The poll returned pending and the worker hands over the task.
    Store(usize),
}

/// What the waker holds after an operation.
pub open spec fn waker_next(s: WakerState, op: WakerOp) -> WakerState {
    match op {
        WakerOp::Wake => WakerState { slot: None, woken: true },
        WakerOp::Store(task) => if s.woken {
            WakerState { slot: None, woken: true }
        } else {
            WakerState { slot: Some(task), woken: false }
        },
    }
}

/// The task that an operation hands back to the scheduler, if any.
pub open spec fn waker_reschedules(s: WakerState, op: WakerOp) -> Option<usize> {
    match op {
        WakerOp::Wake => s.slot,
        WakerOp::Store(task) => if s.woken {
            Some(task)
        } else {
            None
        },
    }
}

/// What a fresh waker holds after it went through `ops`.
pub open spec fn waker_run(ops: Seq<WakerOp>) -> WakerState
    decreases ops.len(),
{
    if ops.len() == 0 {
        WakerState { slot: None, woken: false }
    } else {
        waker_next(waker_run(ops.drop_last()), ops.last())
    }
}

/// The tasks that a fresh waker handed back to the scheduler while it went
/// through `ops`, in their order.
pub open spec fn rescheduled(ops: Seq<WakerOp>) -> Seq<usize>
    decreases ops.len(),
{
    if ops.len() == 0 {
        Seq::empty()
    } else {
        let earlier = rescheduled(ops.drop_last());
        match waker_reschedules(waker_run(ops.drop_last()), ops.last()) {
            Some(task) => earlier.push(task),
            None => earlier,
        }
    }
}

/// Whether the history is that of one poll that returned pending: the worker
/// stores `task` once, at position `at`, and every other operation is a wake.
pub open spec fn one_store(ops: Seq<WakerOp>, at: int, task: usize) -> bool {
    &&& 0 <= at < ops.len()
    &&& ops[at] == WakerOp::Store(task)
    &&& forall|k: int| 0 <= k < ops.len() && k != at ==> ops[k] == WakerOp::Wake
}

/// The first `n` operations of the history of one pending poll: before the
/// store nothing is rescheduled; from the store on, the task was rescheduled
/// once if any wake has arrived, and waits in the slot if none has.
pub proof fn one_store_prefix(ops: Seq<WakerOp>, at: int, task: usize, n: int)
    requires
        one_store(ops, at, task),
        0 <= n <= ops.len(),
    ensures
        n <= at ==> rescheduled(ops.take(n)).len() == 0 && waker_run(ops.take(n)) == (WakerState {
            slot: None,
            woken: n > 0,
        }),
        n > at && n == 1 ==> rescheduled(ops.take(n)).len() == 0 && waker_run(ops.take(n)) == (
        WakerState { slot: Some(task), woken: false }),
        n > at && n > 1 ==> rescheduled(ops.take(n)) == seq![task] && waker_run(ops.take(n)) == (
        WakerState { slot: None, woken: true }),
    decreases n,
{
    if n == 0 {
        assert(ops.take(0).len() == 0);
    } else {
        let h = n - 1;
        one_store_prefix(ops, at, task, h);
        assert(ops.take(n).drop_last() =~= ops.take(h));
        assert(ops.take(n).last() == ops[h]);
        let before = waker_run(ops.take(h));
        let earlier = rescheduled(ops.take(h));
        assert(waker_run(ops.take(n)) == waker_next(before, ops[h]));
        if h == at {
            if h > 0 {
                assert(earlier.push(task) =~= seq![task]);
            }
        } else {
            assert(ops[h] == WakerOp::Wake);
            if h > at && h == 1 {
                assert(earlier.push(task) =~= seq![task]);
            }
        }
    }
}

/// A task that is woken is rescheduled exactly once, whether the wake comes
/// during the poll (before the worker stores the task) or after it, and
/// however many wakes there are; a task that is not woken is not rescheduled
/// and waits in the slot.
pub proof fn woken_task_rescheduled_once(ops: Seq<WakerOp>, at: int, task: usize)
    requires
        one_store(ops, at, task),
    ensures
        ops.len() > 1 ==> rescheduled(ops) == seq![task] && waker_run(ops).slot.is_none(),
        ops.len() == 1 ==> rescheduled(ops).len() == 0 && waker_run(ops).slot == Some(task),
{
    one_store_prefix(ops, at, task, ops.len() as int);
    assert(ops.take(ops.len() as int) =~= ops);
}

/// The waker of one poll of a task.
pub struct TaskWaker {
    task: Option<usize>,
    woken: bool,
}

impl View for TaskWaker {
    type V = WakerState;

    closed spec fn view(&self) -> WakerState {
        WakerState { slot: self.task, woken: self.woken }
    }
}

impl TaskWaker {
    /// The waker for a poll that is about to start: it holds no task and no
    /// wake has arrived.
    pub fn new() -> (w: TaskWaker)
        ensures
            w@ == (WakerState { slot: None, woken: false }),
    {
        TaskWaker { task: None, woken: false }
    }

    /// The poll returned pending: the worker hands over the task. If a wake
    /// has arrived meanwhile, the task is returned and the caller schedules
    /// it at once; otherwise it is kept for the wake to come.
    pub fn task(&mut self, task: usize) -> (reschedule: Option<usize>)
        ensures
            final(self)@ == waker_next(old(self)@, WakerOp::Store(task)),
            reschedule == waker_reschedules(old(self)@, WakerOp::Store(task)),
    {
        if self.woken {
            self.task = None;
            Some(task)
        } else {
            self.task = Some(task);
            None
        }
    }

    /// The waker is invoked. If it holds the task, the task is returned and
    /// the caller schedules it; otherwise the wake is recorded for the worker
    /// that is still polling.
    pub fn wake(&mut self) -> (reschedule: Option<usize>)
        ensures
            final(self)@ == waker_next(old(self)@, WakerOp::Wake),
            reschedule == waker_reschedules(old(self)@, WakerOp::Wake),
    {
        let held = self.task;
        self.task = None;
        self.woken = true;
        held
    }
}

} // verus!
