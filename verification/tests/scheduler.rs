use dirtio::runtime::park::{ParkState, ParkStep};
use dirtio::runtime::scheduler::handle::Unparked;
use dirtio::runtime::scheduler::task_waker::TaskWaker;
use dirtio::runtime::scheduler::worker::{Shared, Turn, Worker};
use dirtio::runtime::{Builder, Runtime};

#[test]
fn shared_queues_are_fifo() {
    let mut s = Shared::new();
    assert_eq!(s.pop_task(), None);
    assert_eq!(s.pop_unparker(), None);
    s.push_task(3);
    s.push_task(1);
    s.push_unparker(7);
    s.push_task(2);
    assert_eq!(s.pop_task(), Some(3));
    assert_eq!(s.pop_task(), Some(1));
    s.push_task(9);
    assert_eq!(s.pop_unparker(), Some(7));
    assert_eq!(s.pop_unparker(), None);
    assert_eq!(s.pop_task(), Some(2));
    assert_eq!(s.pop_task(), Some(9));
    assert_eq!(s.pop_task(), None);
}

#[test]
fn create_makes_that_many_workers() {
    let (workers, handle) = Worker::create(4);
    assert_eq!(workers.len(), 4);
    assert_eq!(handle.workers(), 4);
    for (i, w) in workers.iter().enumerate() {
        assert_eq!(w.index(), i);
        assert_eq!(handle.parker(i), Some(ParkState::Empty));
    }
    assert_eq!(handle.parker(4), None);
}

#[test]
fn create_of_no_worker() {
    let (workers, mut handle) = Worker::create(0);
    assert!(workers.is_empty());
    assert_eq!(handle.workers(), 0);
    assert_eq!(handle.schedule(1), None);
}

#[test]
fn worker_drives_when_idle_and_driver_free() {
    let (workers, mut handle) = Worker::create(2);
    assert_eq!(workers[0].run(&mut handle, true), Turn::Drive);
    assert_eq!(handle.parker(0), Some(ParkState::Empty));
}

#[test]
fn worker_takes_task_before_anything_else() {
    let (workers, mut handle) = Worker::create(2);
    assert_eq!(handle.schedule(11), None);
    assert_eq!(handle.schedule(22), None);
    assert_eq!(workers[0].run(&mut handle, true), Turn::Run(11));
    assert_eq!(workers[1].run(&mut handle, false), Turn::Run(22));
    assert_eq!(workers[1].run(&mut handle, false), Turn::Sleep);
}

#[test]
fn worker_parks_when_driver_is_taken() {
    let (workers, mut handle) = Worker::create(2);
    assert_eq!(workers[1].run(&mut handle, false), Turn::Sleep);
    assert_eq!(handle.parker(1), Some(ParkState::Parked));
    assert_eq!(handle.parker(0), Some(ParkState::Empty));
    // A spurious wake: nothing was scheduled.
    assert_eq!(workers[1].wake(&mut handle), ParkStep::Wait);
    assert_eq!(handle.schedule(5), Some(Unparked { worker: 1, signal: true }));
    assert_eq!(handle.parker(1), Some(ParkState::Notified));
    assert_eq!(workers[1].wake(&mut handle), ParkStep::Resume);
    assert_eq!(handle.parker(1), Some(ParkState::Empty));
    assert_eq!(workers[1].run(&mut handle, false), Turn::Run(5));
}

#[test]
fn schedule_unparks_oldest_unparker_only() {
    let (workers, mut handle) = Worker::create(3);
    assert_eq!(workers[2].run(&mut handle, false), Turn::Sleep);
    assert_eq!(workers[0].run(&mut handle, false), Turn::Sleep);
    assert_eq!(handle.schedule(1), Some(Unparked { worker: 2, signal: true }));
    assert_eq!(handle.parker(0), Some(ParkState::Parked));
    assert_eq!(handle.schedule(2), Some(Unparked { worker: 0, signal: true }));
    assert_eq!(handle.schedule(3), None);
    assert_eq!(workers[2].wake(&mut handle), ParkStep::Resume);
    assert_eq!(workers[2].run(&mut handle, false), Turn::Run(1));
    assert_eq!(workers[0].wake(&mut handle), ParkStep::Resume);
    assert_eq!(workers[0].run(&mut handle, false), Turn::Run(2));
    assert_eq!(workers[1].run(&mut handle, true), Turn::Run(3));
}

#[test]
fn stale_unparker_gives_a_pre_notification() {
    let (workers, mut handle) = Worker::create(1);
    assert_eq!(workers[0].run(&mut handle, false), Turn::Sleep);
    assert_eq!(handle.schedule(1), Some(Unparked { worker: 0, signal: true }));
    assert_eq!(workers[0].wake(&mut handle), ParkStep::Resume);
    assert_eq!(workers[0].run(&mut handle, false), Turn::Run(1));
    // The worker parks again; a task arrives and notifies it; it wakes and
    // takes the task; then it finds the queue empty and parks once more.
    assert_eq!(workers[0].run(&mut handle, false), Turn::Sleep);
    assert_eq!(handle.schedule(2), Some(Unparked { worker: 0, signal: true }));
    assert_eq!(handle.schedule(3), None);
    assert_eq!(workers[0].wake(&mut handle), ParkStep::Resume);
    assert_eq!(workers[0].run(&mut handle, false), Turn::Run(2));
    assert_eq!(workers[0].run(&mut handle, false), Turn::Run(3));
    assert_eq!(workers[0].run(&mut handle, false), Turn::Sleep);
    // Unparking a worker that is awake is benign: the notification waits.
    assert_eq!(handle.schedule(4), Some(Unparked { worker: 0, signal: true }));
    assert_eq!(workers[0].wake(&mut handle), ParkStep::Resume);
    assert_eq!(workers[0].run(&mut handle, true), Turn::Run(4));
    assert_eq!(workers[0].run(&mut handle, false), Turn::Sleep);
    assert_eq!(workers[0].wake(&mut handle), ParkStep::Wait);
}

#[test]
fn notified_worker_retries_instead_of_sleeping() {
    let (workers, mut handle) = Worker::create(1);
    assert_eq!(workers[0].run(&mut handle, false), Turn::Sleep);
    assert_eq!(handle.schedule(1), Some(Unparked { worker: 0, signal: true }));
    assert_eq!(workers[0].wake(&mut handle), ParkStep::Resume);
    assert_eq!(workers[0].run(&mut handle, true), Turn::Run(1));
    // One request to be unparked per park: this one is answered while the
    // worker is awake.
    assert_eq!(workers[0].run(&mut handle, false), Turn::Sleep);
    assert_eq!(workers[0].wake(&mut handle), ParkStep::Wait);
    assert_eq!(handle.schedule(2), Some(Unparked { worker: 0, signal: true }));
    assert_eq!(workers[0].wake(&mut handle), ParkStep::Resume);
    assert_eq!(workers[0].run(&mut handle, true), Turn::Run(2));
    assert_eq!(handle.parker(0), Some(ParkState::Empty));
}

#[test]
fn spawn_storm() {
    let mut b = Builder::new();
    b.worker_threads(4);
    let rt: Runtime = b.build(None);
    let (workers, mut handle, _driver) = rt.into_parts();
    assert_eq!(workers.len(), 4);
    for task in 0..10_000usize {
        handle.schedule(task);
    }
    let mut results: Vec<usize> = Vec::new();
    let mut polled = [0usize; 4];
    let mut next = 0usize;
    loop {
        let w = next % 4;
        next += 1;
        match workers[w].run(&mut handle, true) {
            Turn::Run(task) => {
                results.push(task * task);
                polled[w] += 1;
            }
            Turn::Drive => break,
            turn => panic!("unexpected turn {:?}", turn),
        }
    }
    assert_eq!(results.len(), 10_000);
    for (i, r) in results.iter().enumerate() {
        assert_eq!(*r, i * i);
    }
    assert!(polled.iter().all(|n| *n >= 1));
}

#[test]
fn waker_wake_after_store_reschedules_once() {
    let mut w = TaskWaker::new();
    assert_eq!(w.task(7), None);
    assert_eq!(w.wake(), Some(7));
    assert_eq!(w.wake(), None);
    assert_eq!(w.wake(), None);
}

#[test]
fn waker_wake_during_poll_reschedules_once() {
    let mut w = TaskWaker::new();
    assert_eq!(w.wake(), None);
    assert_eq!(w.wake(), None);
    assert_eq!(w.task(7), Some(7));
    assert_eq!(w.wake(), None);
}

#[test]
fn waker_without_wake_keeps_task() {
    let mut w = TaskWaker::new();
    assert_eq!(w.task(3), None);
    // The task waits in the slot; the first wake hands it over.
    assert_eq!(w.wake(), Some(3));
}

#[test]
fn woken_task_is_enqueued_once() {
    let (workers, mut handle) = Worker::create(1);
    handle.schedule(42);
    assert_eq!(workers[0].run(&mut handle, true), Turn::Run(42));
    let mut waker = TaskWaker::new();
    // Two wakes arrive while the task is polled, one after it was stored.
    let mut enqueued = 0;
    for reschedule in [waker.wake(), waker.wake(), waker.task(42), waker.wake()] {
        if let Some(task) = reschedule {
            handle.schedule(task);
            enqueued += 1;
        }
    }
    assert_eq!(enqueued, 1);
    assert_eq!(workers[0].run(&mut handle, true), Turn::Run(42));
    assert_eq!(workers[0].run(&mut handle, true), Turn::Drive);
}
