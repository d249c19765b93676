//! System calls that make, replace, await and end tasks, and the traps of user tasks.

pub mod clone;
pub mod context;
pub mod execve;
pub mod exit;
pub mod trap;
pub mod wait;
