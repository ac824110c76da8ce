pub mod driver;
pub mod event;
pub mod registration;
pub mod slab;
