//! The builder of a runtime, and the state that a runtime starts from.

use vstd::prelude::*;
use crate::io::driver::Driver;
use crate::runtime::scheduler::handle::{HandleInner, PoolState};
use crate::runtime::scheduler::worker::Worker;

verus! {

/// The number of worker threads of a runtime: the configured number, or else
/// the number of logical CPUs that was detected, or else 1. A runtime has at
/// least one worker: zero counts as 1.
pub open spec fn worker_count(configured: Option<usize>, detected: Option<usize>) -> usize {
    let wanted = match configured {
        Some(n) => n,
        None => match detected {
            Some(n) => n,
            None => 1,
        },
    };
    if wanted == 0 {
        1
    } else {
        wanted
    }
}

/// Whatever is configured and detected, a runtime has a worker.
pub proof fn worker_count_is_positive(configured: Option<usize>, detected: Option<usize>)
    ensures
        worker_count(configured, detected) >= 1,
        configured matches Some(n) ==> (n > 0 ==> worker_count(configured, detected) == n),
{
}

/// The state of a runtime before its threads start: the workers, the state
/// they share, and the event driver.
pub struct Runtime {
    workers: Vec<Worker>,
    handle: HandleInner,
    driver: Driver,
}

impl Runtime {
    /// The number of workers.
    pub closed spec fn size(&self) -> nat {
        self.workers@.len()
    }

    /// The position of the `i`-th worker's parker in the pool.
    pub closed spec fn worker_id(&self, i: int) -> usize {
        self.workers@[i].id()
    }

    /// The state that the workers share.
    pub closed spec fn pool(&self) -> PoolState {
        self.handle@
    }

    /// The registry of the event driver.
    pub closed spec fn registry(&self) -> Map<usize, usize> {
        self.driver.registry()
    }

    /// Hands out the workers, each for a thread of its own, the state they
    /// share, and the event driver.
    pub fn into_parts(self) -> (parts: (Vec<Worker>, HandleInner, Driver))
        ensures
            parts.0@.len() == self.size(),
            forall|i: int| 0 <= i < self.size() ==> (#[trigger] parts.0@[i]).id() == self.worker_id(i),
            parts.1@ == self.pool(),
            parts.2.registry() == self.registry(),
    {
        (self.workers, self.handle, self.driver)
    }
}

/// Configures a runtime.
pub struct Builder {
    worker_threads: Option<usize>,
}

impl Default for Builder {
    fn default() -> (b: Builder)
        ensures
            b.configured().is_none(),
    {
        Builder { worker_threads: None }
    }
}

impl Builder {
    /// The number of worker threads that was asked for, if any was.
    pub closed spec fn configured(&self) -> Option<usize> {
        self.worker_threads
    }

    /// A builder with nothing configured.
    pub fn new() -> (b: Builder)
        ensures
            b.configured().is_none(),
    {
        Builder { worker_threads: None }
    }

    /// Sets the number of worker threads.
    pub fn worker_threads(&mut self, val: usize) -> (b: &mut Builder)
        ensures
            b.configured() == Some(val),
            *final(self) == *final(b),
    {
        self.worker_threads = Some(val);
        self
    }

    /// The number of worker threads that `build` creates, given the number
    /// of logical CPUs that the caller detected, if it could.
    pub fn threads(&self, detected: Option<usize>) -> (n: usize)
        ensures
            n == worker_count(self.configured(), detected),
            n >= 1,
    {
        let wanted = match self.worker_threads {
            Some(n) => n,
            None => match detected {
                Some(n) => n,
                None => 1,
            },
        };
        if wanted == 0 {
            1
        } else {
            wanted
        }
    }

    /// Builds the state of a runtime: a driver with nothing registered, and
    /// a pool of as many workers as are configured, or as logical CPUs were
    /// detected, and of one at least. No task waits, no worker is parked.
    pub fn build(&mut self, detected: Option<usize>) -> (rt: Runtime)
        ensures
            *final(self) == *old(self),
            rt.size() == worker_count(old(self).configured(), detected),
            forall|i: int| 0 <= i < rt.size() ==> rt.worker_id(i) == i,
            rt.pool() == PoolState::initial(worker_count(old(self).configured(), detected)),
            rt.pool().wf(),
            rt.registry() == Map::<usize, usize>::empty(),
    {
        let size = self.threads(detected);
        let driver = Driver::new();
        let (workers, handle) = Worker::create(size);
        Runtime { workers, handle, driver }
    }
}

} // verus!
