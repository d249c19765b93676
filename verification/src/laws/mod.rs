//! What the operations are for.
//!
//! Each law here speaks of calls: of what goes into an operation and what comes out of it, in
//! the plainest terms. `call_ensures` stands for a call that was made; of what a call changes,
//! `old` is the value before it and `final` the value after it.

pub mod blocking;
pub mod cloning;
pub mod ending;
pub mod keeping;
pub mod loading;
pub mod memory;
pub mod objects;
pub mod order;
pub mod processes;
pub mod registers;
pub mod replacing;
pub mod starting;
pub mod tables;
pub mod tasks;
pub mod traps;
