//! Shared objects that are mapped into every address space: the scheduler's code, and the
//! message queues.

pub mod elf;
pub mod example_api;
pub mod loader;
pub mod placement;
pub mod starry;
pub mod vqueue_api;
pub mod vsched2_api;
pub mod wrapper;
