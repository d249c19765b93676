//! Scheduling states of tasks, in each of the forms in which they are kept.

use vstd::prelude::*;

use crate::abi::slot::{
    SHARED_TASK_BLOCKED, SHARED_TASK_BLOCKING, SHARED_TASK_EXITED, SHARED_TASK_READY,
    SHARED_TASK_RUNNING,
};

verus! {

/// The state of a task, as the external scheduler has it.
#[derive(Clone, Copy, Debug, Eq, PartialEq, Structural)]
pub enum TaskState {
    Ready,
    Running,
    Blocked,
    Exited,
    Blocking,
}

/// The state of a task, as the kernel's own task API has it.
#[derive(Clone, Copy, Debug, Eq, PartialEq, Structural)]
pub enum AxTaskState {
    Running,
    Ready,
    Blocked,
    Exited,
    Blocking,
}

/// The external scheduler's form of a kernel task state.
pub open spec fn vsched_state(s: AxTaskState) -> TaskState {
    match s {
        AxTaskState::Ready => TaskState::Ready,
        AxTaskState::Running => TaskState::Running,
        AxTaskState::Blocked => TaskState::Blocked,
        AxTaskState::Exited => TaskState::Exited,
        AxTaskState::Blocking => TaskState::Blocking,
    }
}

/// The kernel's form of the external scheduler's task state.
pub open spec fn ax_state(s: TaskState) -> AxTaskState {
    match s {
        TaskState::Ready => AxTaskState::Ready,
        TaskState::Running => AxTaskState::Running,
        TaskState::Blocked => AxTaskState::Blocked,
        TaskState::Exited => AxTaskState::Exited,
        TaskState::Blocking => AxTaskState::Blocking,
    }
}

/// The number by which a state stands in a shared task slot.
pub open spec fn raw_state(s: TaskState) -> usize {
    match s {
        TaskState::Ready => SHARED_TASK_READY,
        TaskState::Running => SHARED_TASK_RUNNING,
        TaskState::Blocked => SHARED_TASK_BLOCKED,
        TaskState::Exited => SHARED_TASK_EXITED,
        TaskState::Blocking => SHARED_TASK_BLOCKING,
    }
}

/// Whether a number stands for a state.
pub open spec fn is_raw_state(raw: usize) -> bool {
    raw <= SHARED_TASK_BLOCKING
}

/// The state that a number stands for.
pub open spec fn state_of_raw(raw: usize) -> TaskState {
    if raw == SHARED_TASK_READY {
        TaskState::Ready
    } else if raw == SHARED_TASK_RUNNING {
        TaskState::Running
    } else if raw == SHARED_TASK_BLOCKED {
        TaskState::Blocked
    } else if raw == SHARED_TASK_EXITED {
        TaskState::Exited
    } else {
        TaskState::Blocking
    }
}

/// The state that a task in state `current` moves to, given one target for each state.
pub open spec fn state_after_match(
    current: TaskState,
    state_from_ready: TaskState,
    state_from_running: TaskState,
    state_from_blocked: TaskState,
    state_from_exited: TaskState,
    state_from_blocking: TaskState,
) -> TaskState {
    match current {
        TaskState::Ready => state_from_ready,
        TaskState::Running => state_from_running,
        TaskState::Blocked => state_from_blocked,
        TaskState::Exited => state_from_exited,
        TaskState::Blocking => state_from_blocking,
    }
}

/// Gives a kernel task state the external scheduler's form.
pub fn to_vsched_state(s: AxTaskState) -> (r: TaskState)
    ensures
        r == vsched_state(s),
{
    match s {
        AxTaskState::Ready => TaskState::Ready,
        AxTaskState::Running => TaskState::Running,
        AxTaskState::Blocked => TaskState::Blocked,
        AxTaskState::Exited => TaskState::Exited,
        AxTaskState::Blocking => TaskState::Blocking,
    }
}

/// Gives a state of the external scheduler the kernel's form.
pub fn from_vsched_state(s: TaskState) -> (r: AxTaskState)
    ensures
        r == ax_state(s),
{
    match s {
        TaskState::Ready => AxTaskState::Ready,
        TaskState::Running => AxTaskState::Running,
        TaskState::Blocked => AxTaskState::Blocked,
        TaskState::Blocking => AxTaskState::Blocking,
        TaskState::Exited => AxTaskState::Exited,
    }
}

/// The number by which a state stands in a shared task slot.
pub fn state_to_raw(state: TaskState) -> (raw: usize)
    ensures
        raw == raw_state(state),
{
    match state {
        TaskState::Ready => SHARED_TASK_READY,
        TaskState::Running => SHARED_TASK_RUNNING,
        TaskState::Blocked => SHARED_TASK_BLOCKED,
        TaskState::Exited => SHARED_TASK_EXITED,
        TaskState::Blocking => SHARED_TASK_BLOCKING,
    }
}

/// The state that a number in a shared task slot stands for.
pub fn state_from_raw(raw: usize) -> (state: TaskState)
    requires
        is_raw_state(raw),
    ensures
        state == state_of_raw(raw),
{
    if raw == SHARED_TASK_READY {
        TaskState::Ready
    } else if raw == SHARED_TASK_RUNNING {
        TaskState::Running
    } else if raw == SHARED_TASK_BLOCKED {
        TaskState::Blocked
    } else if raw == SHARED_TASK_EXITED {
        TaskState::Exited
    } else {
        TaskState::Blocking
    }
}

/// The two forms of a task state say the same.
pub proof fn law_state_forms_agree(s: TaskState, a: AxTaskState)
    ensures
        vsched_state(ax_state(s)) == s,
        ax_state(vsched_state(a)) == a,
{
}

/// A state and its number in a shared task slot say the same.
pub proof fn law_raw_states_agree(s: TaskState, raw: usize)
    ensures
        is_raw_state(raw_state(s)),
        state_of_raw(raw_state(s)) == s,
        is_raw_state(raw) ==> raw_state(state_of_raw(raw)) == raw,
{
}

} // verus!
