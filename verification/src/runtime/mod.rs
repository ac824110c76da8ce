pub mod park;
pub mod runtime;
pub mod scheduler;

pub use runtime::{Builder, Runtime};
