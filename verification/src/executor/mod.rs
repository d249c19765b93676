//! Processes as executors of asynchronous tasks.

pub mod api;
pub mod current;
pub mod process;
