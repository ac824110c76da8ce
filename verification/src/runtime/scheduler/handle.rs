//! The state that all the workers of a runtime share, and the operation that
//! hands a task to them.

use vstd::prelude::*;
use crate::runtime::park::{park_next, unpark_signals, ParkOp, ParkState, Parker};
use crate::runtime::scheduler::queue::{queue_front, queue_next, QueueOp};
use crate::runtime::scheduler::worker::Shared;

verus! {

/// The shared state of the worker pool, as a plain value.
pub struct PoolState {
    /// The tasks that wait to be polled, the oldest first.
    pub tasks: Seq<usize>,
    /// The workers that asked to be unparked, the oldest request first.
    pub unparkers: Seq<usize>,
    /// The state of each worker's parker.
    pub parkers: Seq<ParkState>,
}

/// A worker that `schedule` has notified.
#[derive(Clone, Copy, Debug, PartialEq, Eq, Structural)]
pub struct Unparked {
    /// The worker.
    pub worker: usize,
    /// Whether the worker sleeps, so that the caller signals its condition
    /// variable.
    pub signal: bool,
}

impl PoolState {
    /// Every worker in the queue of unparkers is a worker of the pool.
    pub open spec fn wf(self) -> bool {
        forall|i: int|
            0 <= i < self.unparkers.len() ==> #[trigger] self.unparkers[i] < self.parkers.len()
    }

    /// The pool of `size` workers before anything happened: no task, no
    /// unparker, every parker empty.
    pub open spec fn initial(size: usize) -> PoolState {
        PoolState {
            tasks: Seq::empty(),
            unparkers: Seq::empty(),
            parkers: Seq::new(size as nat, |i: int| ParkState::Empty),
        }
    }

    /// The pool after `task` was scheduled: the task stands last in the queue
    /// of tasks, and the oldest unparker, if there is one, has left its queue
    /// and its worker is notified.
    pub open spec fn scheduled(self, task: usize) -> PoolState {
        let tasks = queue_next(self.tasks, QueueOp::Push(task));
        match queue_front(self.unparkers) {
            Some(worker) => PoolState {
                tasks,
                unparkers: queue_next(self.unparkers, QueueOp::Pop),
                parkers: self.parkers.update(
                    worker as int,
                    park_next(self.parkers[worker as int], ParkOp::Unpark),
                ),
            },
            None => PoolState { tasks, ..self },
        }
    }

    /// The worker that scheduling a task notifies, if any.
    pub open spec fn unparked(self) -> Option<Unparked> {
        match queue_front(self.unparkers) {
            Some(worker) => Some(
                Unparked { worker, signal: unpark_signals(self.parkers[worker as int]) },
            ),
            None => None,
        }
    }
}

/// Scheduling keeps the pool well formed and the number of workers.
pub proof fn scheduled_is_wf(s: PoolState, task: usize)
    requires
        s.wf(),
    ensures
        s.scheduled(task).wf(),
        s.scheduled(task).parkers.len() == s.parkers.len(),
{
    if s.unparkers.len() > 0 {
        assert(s.unparkers[0] < s.parkers.len());
        let rest = s.unparkers.drop_first();
        assert forall|i: int| 0 <= i < rest.len() implies #[trigger] rest[i] < s.parkers.len() by {
            assert(rest[i] == s.unparkers[i + 1]);
        }
    }
}

/// A task is scheduled before a worker is looked for, and the notification
/// is not lost: the scheduled task is in the queue, and the worker that is
/// notified finds its notification when it next parks, wherever it stood.
pub proof fn scheduled_wakes_a_worker(s: PoolState, task: usize)
    requires
        s.wf(),
        s.unparkers.len() > 0,
    ensures
        s.scheduled(task).tasks.last() == task,
        s.scheduled(task).parkers[s.unparkers[0] as int] == ParkState::Notified,
{
    assert(s.unparkers[0] < s.parkers.len());
}

/// The state shared by the workers of a runtime: the queue of tasks, the
/// queue of workers to unpark, and the parker of each worker.
pub struct HandleInner {
    pub(crate) shared: Shared,
    pub(crate) parkers: Vec<Parker>,
}

impl View for HandleInner {
    type V = PoolState;

    open(crate) spec fn view(&self) -> PoolState {
        PoolState {
            tasks: self.shared.tasks(),
            unparkers: self.shared.unparkers(),
            parkers: Seq::new(self.parkers@.len(), |i: int| self.parkers@[i].state()),
        }
    }
}

impl HandleInner {
    /// The number of workers of the pool.
    pub fn workers(&self) -> (n: usize)
        ensures
            n == self@.parkers.len(),
    {
        self.parkers.len()
    }

    /// The state of a worker's parker, if there is such a worker.
    pub fn parker(&self, worker: usize) -> (state: Option<ParkState>)
        ensures
            state == (if worker < self@.parkers.len() {
                Some(self@.parkers[worker as int])
            } else {
                None
            }),
    {
        if worker < self.parkers.len() {
            Some(self.parkers[worker].current())
        } else {
            None
        }
    }

    /// Schedules a task and wakes up a worker to process it: the task is
    /// pushed first, then the oldest unparker, if any, is taken and its
    /// worker notified. Returns that worker, for the caller to signal.
    pub fn schedule(&mut self, task: usize) -> (unparked: Option<Unparked>)
        requires
            old(self)@.wf(),
        ensures
            final(self)@.wf(),
            final(self)@ == old(self)@.scheduled(task),
            unparked == old(self)@.unparked(),
    {
        proof {
            scheduled_is_wf(self@, task);
        }
        self.shared.push_task(task);
        match self.shared.pop_unparker() {
            Some(worker) => {
                let signal = self.parkers[worker].unpark();
                assert(self@.parkers =~= old(self)@.scheduled(task).parkers);
                Some(Unparked { worker, signal })
            },
            None => {
                assert(self@.parkers =~= old(self)@.parkers);
                None
            },
        }
    }
}

} // verus!
