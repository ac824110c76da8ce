pub mod handle;
pub mod queue;
pub mod task_waker;
pub mod worker;
