//! Tasks as a user address space sees them.
//!
//! A user scheduler only has task IDs. All that it knows of a task stands in the task's slot
//! of the shared table.

use vstd::prelude::*;

use crate::abi::process::{is_user_raw, VschedProcessId};
use crate::abi::slot::{SharedTaskSlot, SHARED_CONTEXT_COROUTINE};
use crate::abi::table::SharedTaskTable;
use crate::abi::task::{decode_task, task_of_id, UserTaskKey};
use crate::state::{
    is_raw_state, raw_state, state_after_match, state_from_raw, state_of_raw, state_to_raw,
    TaskState,
};

verus! {

/// A task, by its task ID. It holds nothing else.
#[derive(Clone, Copy, Debug, Eq, PartialEq, Structural)]
pub struct UserTask {
    pub raw: usize,
}

/// Whether a value is the task ID of a task that is there.
pub open spec fn is_user_task(table: SharedTaskTable, raw: usize) -> bool {
    raw % 2 == 1 && raw / 128 != 0 && table.live(task_of_id(raw))
}

/// The task of a task ID, if its handle is still good.
pub fn task(table: &SharedTaskTable, raw: usize) -> (task: Option<UserTask>)
    ensures
        task == (if is_user_task(*table, raw) {
            Some(UserTask { raw })
        } else {
            None
        }),
{
    match decode_task(raw) {
        Some(key) => if table.is_live(key) {
            Some(UserTask { raw })
        } else {
            None
        },
        None => None,
    }
}

/// The task that runs on this CPU. `current` is what the scheduler says: it may say nothing,
/// or name a task that is no user task or is gone.
pub fn current_task(table: &SharedTaskTable, current: usize) -> (r: Option<UserTask>)
    ensures
        r == (if is_user_task(*table, current) {
            Some(UserTask { raw: current })
        } else {
            None
        }),
{
    task(table, current)
}

impl UserTask {
    /// The handle that the task ID stands for.
    pub open spec fn handle(self) -> UserTaskKey {
        task_of_id(self.raw)
    }

    /// Whether the task is there.
    pub open spec fn valid(self, table: SharedTaskTable) -> bool {
        is_user_task(table, self.raw)
    }

    /// What the shared table has of the task.
    pub open spec fn slot(self, table: SharedTaskTable) -> SharedTaskSlot {
        table.of(self.handle())
    }

    fn checked_key(&self, table: &SharedTaskTable) -> (key: UserTaskKey)
        requires
            self.valid(*table),
        ensures
            key == self.handle(),
    {
        decode_task(self.raw).unwrap()
    }

    /// The task's scheduling state.
    pub fn state(&self, table: &SharedTaskTable) -> (state: TaskState)
        requires
            self.valid(*table),
            is_raw_state(self.slot(*table).task_state),
        ensures
            state == state_of_raw(self.slot(*table).task_state),
    {
        let key: UserTaskKey = self.checked_key(table);
        state_from_raw(table.task_state(key).unwrap())
    }

    /// Sets the scheduling state and returns the one before.
    pub fn set_state(&self, table: &mut SharedTaskTable, state: TaskState) -> (previous: TaskState)
        requires
            self.valid(*old(table)),
            is_raw_state(self.slot(*old(table)).task_state),
        ensures
            previous == state_of_raw(self.slot(*old(table)).task_state),
            final(table).is_update(
                *old(table),
                self.handle(),
                (SharedTaskSlot { task_state: raw_state(state), ..self.slot(*old(table)) }),
            ),
            self.valid(*final(table)),
            old(table).wf() ==> final(table).wf(),
    {
        let key: UserTaskKey = self.checked_key(table);
        let previous: Option<usize> = table.swap_task_state(key, state_to_raw(state));
        state_from_raw(previous.unwrap())
    }

    /// Moves the task to the state that is given for its present one, and returns the
    /// present one.
    pub fn match_set_state(
        &self,
        table: &mut SharedTaskTable,
        state_from_ready: TaskState,
        state_from_running: TaskState,
        state_from_blocked: TaskState,
        state_from_exited: TaskState,
        state_from_blocking: TaskState,
    ) -> (previous: TaskState)
        requires
            self.valid(*old(table)),
            is_raw_state(self.slot(*old(table)).task_state),
        ensures
            previous == state_of_raw(self.slot(*old(table)).task_state),
            final(table).is_update(
                *old(table),
                self.handle(),
                (SharedTaskSlot {
                    task_state: raw_state(
                        state_after_match(
                            previous,
                            state_from_ready,
                            state_from_running,
                            state_from_blocked,
                            state_from_exited,
                            state_from_blocking,
                        ),
                    ),
                    ..self.slot(*old(table))
                }),
            ),
            self.valid(*final(table)),
            old(table).wf() ==> final(table).wf(),
    {
        let key: UserTaskKey = self.checked_key(table);
        let previous: Option<usize> = table.match_set_task_state(
            key,
            state_to_raw(state_from_ready),
            state_to_raw(state_from_running),
            state_to_raw(state_from_blocked),
            state_to_raw(state_from_exited),
            state_to_raw(state_from_blocking),
        );
        state_from_raw(previous.unwrap())
    }

    /// The task's priority.
    pub fn priority(&self, table: &SharedTaskTable) -> (priority: isize)
        requires
            self.valid(*table),
        ensures
            priority == self.slot(*table).priority,
    {
        let key: UserTaskKey = self.checked_key(table);
        table.priority(key).unwrap()
    }

    /// Whether the task's context is that of a coroutine.
    pub fn is_coroutine(&self, table: &SharedTaskTable) -> (b: bool)
        requires
            self.valid(*table),
        ensures
            b == (self.slot(*table).context_kind == SHARED_CONTEXT_COROUTINE),
    {
        let key: UserTaskKey = self.checked_key(table);
        table.context_kind(key).unwrap() == SHARED_CONTEXT_COROUTINE
    }

    /// Whether the task runs in the kernel: no task of user space does.
    pub fn is_kernel(&self, table: &SharedTaskTable) -> (b: bool)
        requires
            self.valid(*table),
        ensures
            !b,
    {
        false
    }

    /// The task's process.
    pub fn pid(&self, table: &SharedTaskTable) -> (pid: usize)
        requires
            self.valid(*table),
            is_user_raw(self.slot(*table).process_id),
        ensures
            pid == self.slot(*table).process_id,
    {
        let key: UserTaskKey = self.checked_key(table);
        table.process_id(key).unwrap().as_raw()
    }

    /// Moves the task to another user process.
    pub fn set_pid(&self, table: &mut SharedTaskTable, pid: usize)
        requires
            self.valid(*old(table)),
            is_user_raw(pid),
        ensures
            final(table).is_update(
                *old(table),
                self.handle(),
                (SharedTaskSlot { process_id: pid, ..self.slot(*old(table)) }),
            ),
            self.valid(*final(table)),
            old(table).wf() ==> final(table).wf(),
    {
        let key: UserTaskKey = self.checked_key(table);
        let id: VschedProcessId = VschedProcessId::from_user_raw(pid).unwrap();
        table.set_process_id(key, id);
    }
}

/// A user task is there as long as its handle is good: once the handle is released, its task
/// ID names nothing.
pub proof fn law_released_task_is_gone(
    before: SharedTaskTable,
    after: SharedTaskTable,
    task: UserTask,
)
    requires
        task.valid(before),
        after.is_update(
            before,
            task.handle(),
            SharedTaskSlot::blank(
                crate::abi::slot::SHARED_TASK_FREE,
                crate::abi::table::generation_after(task.handle().generation),
            ),
        ),
    ensures
        !task.valid(after),
{
}

} // verus!
