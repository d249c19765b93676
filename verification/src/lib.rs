//! A unified scheduler's integration layer, verified.

pub mod abi;
pub mod asynctask;
pub mod axtask;
pub mod executor;
pub mod laws;
pub mod sched;
pub mod state;
pub mod syscall;
pub mod user;
pub mod vdso;
pub mod vipc;
