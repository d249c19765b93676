//! Tasks that are futures: the one that a CPU runs, and alarms that wake them.

pub mod current;
pub mod timers;
