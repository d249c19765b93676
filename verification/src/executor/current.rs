//! The executor whose tasks a CPU runs.

use vstd::prelude::*;

use crate::executor::process::ExecutorRef;

verus! {

/// The executor of a CPU, by address, or 0. The slot owns one strong reference to it.
pub struct ExecutorSlot {
    pub ptr: usize,
}

/// The executor of a CPU. It holds the reference that the CPU's slot owns, and gives up none
/// of its own.
#[derive(Debug, Eq, PartialEq, Structural)]
pub struct CurrentExecutor {
    pub executor: ExecutorRef,
}

impl CurrentExecutor {
    /// The executor of the CPU, if any.
    pub fn try_get(slot: &ExecutorSlot) -> (executor: Option<Self>)
        ensures
            executor == (if slot.ptr != 0 {
                Some(CurrentExecutor { executor: ExecutorRef { addr: slot.ptr } })
            } else {
                None
            }),
    {
        if slot.ptr != 0 {
            Some(CurrentExecutor { executor: ExecutorRef { addr: slot.ptr } })
        } else {
            None
        }
    }

    /// The executor of the CPU.
    pub fn get(slot: &ExecutorSlot) -> (executor: Self)
        requires
            slot.ptr != 0,
        ensures
            executor == (CurrentExecutor { executor: ExecutorRef { addr: slot.ptr } }),
    {
        CurrentExecutor { executor: ExecutorRef { addr: slot.ptr } }
    }

    /// The reference to the executor.
    pub fn as_executor_ref(&self) -> (executor: &ExecutorRef)
        ensures
            *executor == self.executor,
    {
        &self.executor
    }

    /// A reference of one's own to the executor.
    pub fn clone(&self) -> (executor: ExecutorRef)
        ensures
            executor == self.executor,
    {
        ExecutorRef { addr: self.executor.addr }
    }

    /// Whether it is the executor of another reference.
    pub fn ptr_eq(&self, other: &ExecutorRef) -> (b: bool)
        ensures
            b == (self.executor.addr == other.addr),
    {
        self.executor.addr == other.addr
    }

    /// Makes an executor that of the CPU: the slot takes the reference.
    pub fn init_current(slot: &mut ExecutorSlot, executor: ExecutorRef)
        ensures
            final(slot).ptr == executor.addr,
    {
        slot.ptr = executor.addr;
    }

    /// The CPU has no executor any more: the reference of the slot is given back to be let go
    /// of.
    pub fn clean_current(slot: &mut ExecutorSlot) -> (released: ExecutorRef)
        requires
            old(slot).ptr != 0,
        ensures
            released.addr == old(slot).ptr,
            final(slot).ptr == 0,
    {
        let current: CurrentExecutor = CurrentExecutor::get(slot);
        slot.ptr = 0;
        current.executor
    }

    /// The CPU has no executor any more. The reference of the slot is not let go of.
    pub fn clean_current_without_drop(slot: &mut ExecutorSlot)
        ensures
            final(slot).ptr == 0,
    {
        slot.ptr = 0;
    }
}

} // verus!
