//! The workers of a runtime: what a worker does on each turn of its loop.

use vstd::prelude::*;
use crate::runtime::park::{park_next, park_resumes, ParkOp, ParkState, ParkStep, Parker};
use crate::runtime::scheduler::handle::{HandleInner, PoolState, Unparked};
use crate::runtime::scheduler::queue::{
    queue_front, queue_items, queue_new, queue_next, queue_pop, queue_push, QueueOp,
};

verus! {

/// The queues that the workers share.
pub struct Shared {
    task: crossbeam_queue::SegQueue<usize>,
    unparker: crossbeam_queue::SegQueue<usize>,
}

impl Shared {
    /// The tasks that wait to be polled, the oldest first.
    pub closed spec fn tasks(&self) -> Seq<usize> {
        queue_items(self.task)
    }

    /// The workers that asked to be unparked, the oldest request first.
    pub closed spec fn unparkers(&self) -> Seq<usize> {
        queue_items(self.unparker)
    }

    /// Two empty queues.
    pub fn new() -> (s: Shared)
        ensures
            s.tasks() == Seq::<usize>::empty(),
            s.unparkers() == Seq::<usize>::empty(),
    {
        Shared { task: queue_new(), unparker: queue_new() }
    }

    /// Puts a task behind the tasks that wait.
    pub fn push_task(&mut self, task: usize)
        ensures
            final(self).tasks() == queue_next(old(self).tasks(), QueueOp::Push(task)),
            final(self).unparkers() == old(self).unparkers(),
    {
        queue_push(&mut self.task, task);
    }

    /// Takes the task that waits longest, if any waits.
    pub fn pop_task(&mut self) -> (task: Option<usize>)
        ensures
            task == queue_front(old(self).tasks()),
            final(self).tasks() == queue_next(old(self).tasks(), QueueOp::Pop),
            final(self).unparkers() == old(self).unparkers(),
    {
        queue_pop(&mut self.task)
    }

    /// Puts a worker behind the workers that asked to be unparked.
    pub fn push_unparker(&mut self, worker: usize)
        ensures
            final(self).unparkers() == queue_next(old(self).unparkers(), QueueOp::Push(worker)),
            final(self).tasks() == old(self).tasks(),
    {
        queue_push(&mut self.unparker, worker);
    }

    /// Takes the worker whose request is the oldest, if there is any.
    pub fn pop_unparker(&mut self) -> (worker: Option<usize>)
        ensures
            worker == queue_front(old(self).unparkers()),
            final(self).unparkers() == queue_next(old(self).unparkers(), QueueOp::Pop),
            final(self).tasks() == old(self).tasks(),
    {
        queue_pop(&mut self.unparker)
    }
}

/// What a worker does after one turn of its loop.
#[derive(Clone, Copy, Debug, PartialEq, Eq, Structural)]
pub enum Turn {
    /// Poll the task given here, which has left the queue.
    Run(usize),
    /// No task waits and the driver is free: poll the driver for events, then
    /// take the next turn.
    Drive,
    /// No task waits and another worker polls the driver: the worker is
    /// parked. Wait on the condition variable, then call `Worker::wake`.
    Sleep,
    /// The worker found a notification when it parked: take the next turn.
    Retry,
}

/// What the worker `worker` does on a turn, given the pool and whether it
/// got hold of the driver.
pub open spec fn turn_action(s: PoolState, worker: usize, driver_free: bool) -> Turn {
    if let Some(task) = queue_front(s.tasks) {
        Turn::Run(task)
    } else if driver_free {
        Turn::Drive
    } else if park_resumes(s.parkers[worker as int], ParkOp::Park) {
        Turn::Retry
    } else {
        Turn::Sleep
    }
}

/// The pool after a turn of the worker `worker`. A task that waits leaves
/// the queue. Where none waits and the driver is taken, the worker first
/// joins the queue of unparkers and then parks.
pub open spec fn turn_state(s: PoolState, worker: usize, driver_free: bool) -> PoolState {
    if s.tasks.len() > 0 {
        PoolState { tasks: queue_next(s.tasks, QueueOp::Pop), ..s }
    } else if driver_free {
        s
    } else {
        PoolState {
            unparkers: queue_next(s.unparkers, QueueOp::Push(worker)),
            parkers: s.parkers.update(
                worker as int,
                park_next(s.parkers[worker as int], ParkOp::Park),
            ),
            ..s
        }
    }
}

/// The pool after the worker `worker`, woken from its condition variable,
/// looked at its parker again.
pub open spec fn wake_state(s: PoolState, worker: usize) -> PoolState {
    PoolState {
        parkers: s.parkers.update(worker as int, park_next(s.parkers[worker as int], ParkOp::Wake)),
        ..s
    }
}

/// A turn keeps the pool well formed and the number of workers.
pub proof fn turn_is_wf(s: PoolState, worker: usize, driver_free: bool)
    requires
        s.wf(),
        worker < s.parkers.len(),
    ensures
        turn_state(s, worker, driver_free).wf(),
        turn_state(s, worker, driver_free).parkers.len() == s.parkers.len(),
{
    let t = turn_state(s, worker, driver_free);
    assert forall|i: int| 0 <= i < t.unparkers.len() implies #[trigger] t.unparkers[i]
        < t.parkers.len() by {
        if i < s.unparkers.len() {
            assert(t.unparkers[i] == s.unparkers[i]);
        }
    }
}

/// A worker never sleeps through a task. If a task is scheduled after the
/// worker joined the unparkers and parked, the worker is the one notified
/// (where it is the oldest unparker), its condition variable is signalled
/// exactly if it sleeps, and the look at its parker on waking lets it go on.
/// If the task is scheduled in between, after the worker joined the
/// unparkers but before it parked, its attempt to park finds the notification
/// and returns at once.
pub proof fn parked_worker_is_woken(s: PoolState, worker: usize, task: usize)
    requires
        s.wf(),
        worker < s.parkers.len(),
        s.parkers[worker as int] != ParkState::Parked,
        s.tasks.len() == 0,
        s.unparkers.len() == 0,
    ensures
        turn_state(s, worker, false).unparked() == Some(
            Unparked { worker, signal: turn_action(s, worker, false) == Turn::Sleep },
        ),
        park_resumes(
            turn_state(s, worker, false).scheduled(task).parkers[worker as int],
            ParkOp::Wake,
        ),
        park_resumes(
            (PoolState { unparkers: s.unparkers.push(worker), ..s }).scheduled(
                task,
            ).parkers[worker as int],
            ParkOp::Park,
        ),
{
    let parked = turn_state(s, worker, false);
    assert(parked.unparkers[0] == worker);
    let joined = PoolState { unparkers: s.unparkers.push(worker), ..s };
    assert(joined.unparkers[0] == worker);
}

/// One worker of the pool.
pub struct Worker {
    index: usize,
}

impl Worker {
    /// The position of the worker's parker in the pool.
    pub closed spec fn id(&self) -> usize {
        self.index
    }

    /// The position of the worker's parker in the pool.
    pub fn index(&self) -> (i: usize)
        ensures
            i == self.id(),
    {
        self.index
    }

    /// Creates the shared state of a pool and its `size` workers, each with a
    /// parker of its own: no task waits, no worker asked to be unparked, no
    /// parker holds a notification.
    pub fn create(size: usize) -> (pool: (Vec<Worker>, HandleInner))
        ensures
            pool.0@.len() == size,
            forall|i: int| 0 <= i < size ==> (#[trigger] pool.0@[i]).id() == i,
            pool.1@ == PoolState::initial(size),
            pool.1@.wf(),
    {
        let mut workers: Vec<Worker> = Vec::new();
        let mut parkers: Vec<Parker> = Vec::new();
        let mut i: usize = 0;
        while i < size
            invariant
                i <= size,
                workers@.len() == i,
                parkers@.len() == i,
                forall|k: int| 0 <= k < i ==> (#[trigger] workers@[k]).id() == k,
                forall|k: int| 0 <= k < i ==> (#[trigger] parkers@[k]).state() == ParkState::Empty,
            decreases size - i,
        {
            workers.push(Worker { index: i });
            parkers.push(Parker::new());
            i += 1;
        }
        let handle = HandleInner { shared: Shared::new(), parkers };
        assert(handle@.parkers =~= PoolState::initial(size).parkers);
        (workers, handle)
    }

    /// One turn of the worker's loop. Takes the task that waits longest, if
    /// any waits. Otherwise the worker polls the driver if it got hold of it
    /// (`driver_free`); if another worker holds the driver, the worker joins
    /// the queue of unparkers and then parks: it goes on at once if a
    /// notification was stored, and sleeps if none was.
    ///
    /// The worker is one of the pool's, and it is awake: to park on a parker
    /// that is parked is an error of the caller.
    pub fn run(&self, handle: &mut HandleInner, driver_free: bool) -> (turn: Turn)
        requires
            old(handle)@.wf(),
            self.id() < old(handle)@.parkers.len(),
            old(handle)@.parkers[self.id() as int] != ParkState::Parked,
        ensures
            final(handle)@.wf(),
            final(handle)@ == turn_state(old(handle)@, self.id(), driver_free),
            turn == turn_action(old(handle)@, self.id(), driver_free),
    {
        proof {
            turn_is_wf(handle@, self.index, driver_free);
        }
        match handle.shared.pop_task() {
            Some(task) => {
                assert(handle@.parkers =~= old(handle)@.parkers);
                Turn::Run(task)
            },
            None => {
                if driver_free {
                    assert(handle@.parkers =~= old(handle)@.parkers);
                    Turn::Drive
                } else {
                    handle.shared.push_unparker(self.index);
                    let step = handle.parkers[self.index].park();
                    assert(handle@.parkers =~= turn_state(
                        old(handle)@,
                        self.id(),
                        driver_free,
                    ).parkers);
                    match step {
                        ParkStep::Resume => Turn::Retry,
                        ParkStep::Wait => Turn::Sleep,
                    }
                }
            },
        }
    }

    /// The worker woke from its condition variable and looks at its parker
    /// again: it goes on if a notification is stored, which is consumed, and
    /// sleeps again if none is.
    pub fn wake(&self, handle: &mut HandleInner) -> (step: ParkStep)
        requires
            old(handle)@.wf(),
            self.id() < old(handle)@.parkers.len(),
        ensures
            final(handle)@.wf(),
            final(handle)@ == wake_state(old(handle)@, self.id()),
            step == ParkStep::Resume <==> park_resumes(
                old(handle)@.parkers[self.id() as int],
                ParkOp::Wake,
            ),
    {
        let step = handle.parkers[self.index].park_wake();
        assert(handle@.parkers =~= wake_state(old(handle)@, self.id()).parkers);
        step
    }
}

} // verus!
