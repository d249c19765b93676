//! The kernel's task API where it meets a scheduler of its own or an external one.

pub mod api;
pub mod waker;
