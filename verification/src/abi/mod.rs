//! The smallest ABI that the kernel and a user-space scheduling runtime share.
//!
//! The types here describe stable identities and the layout of the shared task
//! slots. They expose no kernel object and no kernel address.
//!
//! The slots live in memory that the kernel, several address spaces and several
//! CPUs reach. Every operation here is one transition of that state and takes it
//! by `&mut`: whoever holds the table decides how the transitions are serialised.

pub mod process;
pub mod slot;
pub mod table;
pub mod task;
