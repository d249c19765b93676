//! The asynchronous task that a CPU runs.

use vstd::prelude::*;

use crate::axtask::api::{CurrentSlot, TaskRef};
use crate::state::AxTaskState;

verus! {

/// The task that a CPU runs. It holds the reference that the CPU's slot owns, and gives up
/// none of its own.
#[derive(Debug, Eq, PartialEq, Structural)]
pub struct CurrentTask {
    pub task: TaskRef,
}

impl CurrentTask {
    /// The task that the CPU runs, if any.
    pub fn try_get(slot: &CurrentSlot) -> (task: Option<Self>)
        ensures
            task == (if slot.ptr != 0 {
                Some(CurrentTask { task: TaskRef { addr: slot.ptr } })
            } else {
                None
            }),
    {
        if slot.ptr != 0 {
            Some(CurrentTask { task: TaskRef { addr: slot.ptr } })
        } else {
            None
        }
    }

    /// The task that the CPU runs.
    pub fn get(slot: &CurrentSlot) -> (task: Self)
        requires
            slot.ptr != 0,
        ensures
            task == (CurrentTask { task: TaskRef { addr: slot.ptr } }),
    {
        CurrentTask { task: TaskRef { addr: slot.ptr } }
    }

    /// The reference to the task.
    pub fn as_task_ref(&self) -> (task: &TaskRef)
        ensures
            *task == self.task,
    {
        &self.task
    }

    /// A reference of one's own to the task.
    pub fn clone(&self) -> (task: TaskRef)
        ensures
            task == self.task,
    {
        TaskRef { addr: self.task.addr }
    }

    /// Whether it is the task of another reference.
    pub fn ptr_eq(&self, other: &TaskRef) -> (b: bool)
        ensures
            b == (self.task.addr == other.addr),
    {
        self.task.addr == other.addr
    }

    /// Makes the first task of a CPU the one that runs: the slot takes the reference. Returns
    /// the state that the task is given. `is_init` says that the task is such a first task.
    pub fn init_current(slot: &mut CurrentSlot, init_task: TaskRef, is_init: bool) -> (state:
        AxTaskState)
        requires
            is_init,
        ensures
            state == AxTaskState::Running,
            final(slot).ptr == init_task.addr,
    {
        slot.ptr = init_task.addr;
        AxTaskState::Running
    }

    /// Makes another task the one that runs: the slot takes its reference, and that of `prev`
    /// is given back to be let go of.
    pub fn set_current(slot: &mut CurrentSlot, prev: Self, next: TaskRef) -> (released: TaskRef)
        ensures
            released == prev.task,
            final(slot).ptr == next.addr,
    {
        slot.ptr = next.addr;
        prev.task
    }

    /// No task runs any more: the reference of the slot is given back to be let go of.
    pub fn clean_current(slot: &mut CurrentSlot) -> (released: TaskRef)
        requires
            old(slot).ptr != 0,
        ensures
            released.addr == old(slot).ptr,
            final(slot).ptr == 0,
    {
        let current: CurrentTask = CurrentTask::get(slot);
        slot.ptr = 0;
        current.task
    }

    /// No task runs any more. The reference of the slot is not let go of: its address is
    /// given back, or 0.
    pub fn clean_current_without_drop(slot: &mut CurrentSlot) -> (ptr: usize)
        ensures
            ptr == old(slot).ptr,
            final(slot).ptr == 0,
    {
        let ptr: usize = slot.ptr;
        slot.ptr = 0;
        ptr
    }

    /// The task that a waker of the current task wakes: the one that the CPU runs.
    pub fn waker(&self, slot: &CurrentSlot) -> (task: usize)
        ensures
            task == slot.ptr,
    {
        slot.ptr
    }
}

} // verus!
