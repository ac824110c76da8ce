//! The verified core of a small asynchronous I/O runtime.
//!
//! The crate holds the protocols of the runtime as sequential state machines:
//! the parker of a thread, the registry of the event driver, the readiness
//! bits of a registered source, the slot of a task waker and the scheduler's
//! queues. A shell of threads, sockets and futures drives them with the events
//! it observes and performs the actions they answer with.

pub mod io;
pub mod runtime;
