//! The kernel's side of the external scheduler: its tasks, their contexts, traps, stacks
//! and address spaces.

pub mod context;
pub mod dispatch;
pub mod frames;
pub mod init_task;
pub mod kernel;
pub mod registry;
pub mod smp;
pub mod stack;
pub mod star;
pub mod task;
pub mod trap;
pub mod trapframe;
pub mod userdata;
