//! The data that the kernel shares with every address space.

use vstd::prelude::*;

use crate::abi::slot::{SharedTaskSlot, SHARED_TASK_FREE};
use crate::abi::table::SharedTaskTable;
use crate::abi::task::SHARED_TASK_SLOT_COUNT;

verus! {

/// The shared data: a counter by which an address space can see that the data is shared, and
/// the table of tasks.
pub struct StarryVvar {
    pub stage_a_value: usize,
    /// What user space may see of tasks. Which object a task is, the kernel's registry says.
    pub task_table: SharedTaskTable,
}

impl StarryVvar {
    /// Shared data of a system without tasks.
    pub fn new() -> (vvar: Self)
        ensures
            vvar.stage_a_value == 0,
            vvar.task_table.wf(),
            forall|i: int|
                0 <= i < SHARED_TASK_SLOT_COUNT ==> #[trigger] vvar.task_table.slots@[i]
                    == SharedTaskSlot::blank(SHARED_TASK_FREE, 0),
    {
        StarryVvar { stage_a_value: 0, task_table: SharedTaskTable::new() }
    }

    /// The shared counter.
    pub fn stage_a_get_shared(&self) -> (value: usize)
        ensures
            value == self.stage_a_value,
    {
        self.stage_a_value
    }

    /// Sets the shared counter.
    pub fn stage_a_set_shared(&mut self, value: usize)
        ensures
            final(self).stage_a_value == value,
            final(self).task_table == old(self).task_table,
    {
        self.stage_a_value = value;
    }

    /// Adds to the shared counter, which wraps around, and returns what it was.
    pub fn stage_a_fetch_add(&mut self, value: usize) -> (before: usize)
        ensures
            before == old(self).stage_a_value,
            final(self).stage_a_value == old(self).stage_a_value.wrapping_add(value),
            final(self).task_table == old(self).task_table,
    {
        let before: usize = self.stage_a_value;
        self.stage_a_value = before.wrapping_add(value);
        before
    }

    /// The table of tasks. A task in it is checked by its slot and generation, and is never
    /// an address.
    pub fn user_task_table(&self) -> (table: &SharedTaskTable)
        ensures
            *table == self.task_table,
    {
        &self.task_table
    }
}

} // verus!
