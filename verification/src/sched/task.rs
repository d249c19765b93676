//! A task of the external scheduler, as the kernel has it.
//!
//! A task that user space can see too has a slot in the shared task table. While it has
//! one, its state, priority, form of context and process stand there; its own fields
//! stand in for a slot that is gone.

use std::collections::BTreeMap;

use vstd::prelude::*;

use crate::abi::process::{is_user_raw, VschedProcessId};
use crate::abi::slot::{SharedTaskSlot, SHARED_CONTEXT_COROUTINE, SHARED_CONTEXT_THREAD};
use crate::abi::table::SharedTaskTable;
use crate::abi::task::{encode_task, task_id, UserTaskKey};
use crate::sched::trapframe::{UserGeneralRegs, UserTrapFrame, UserTrapFrameKind};
use crate::state::{
    ax_state, from_vsched_state, is_raw_state, raw_state, state_after_match, state_from_raw,
    state_of_raw, state_to_raw, to_vsched_state, vsched_state, AxTaskState, TaskState,
};

verus! {

/// The interrupt enable bit of the status word.
pub const SIE: usize = 2;

/// A coroutine that keeps its own interrupt state.
///
/// The scheduler runs with interrupts disabled. Before the coroutine is polled its state
/// of last time is restored, and before the scheduler goes on the state is saved and
/// interrupts are disabled. A poll can be left by an interrupt or a yield, so nothing
/// here relies on a destructor.
#[derive(Clone, Copy, Debug, Eq, PartialEq, Structural)]
pub struct IrqCorotineWrapper {
    /// The coroutine, by number.
    pub inner: usize,
    pub irq_state: usize,
}

impl IrqCorotineWrapper {
    /// Wraps a coroutine that can be interrupted from the start.
    pub fn new(inner: usize) -> (wrapper: Self)
        ensures
            wrapper == (IrqCorotineWrapper { inner, irq_state: SIE }),
    {
        IrqCorotineWrapper { inner, irq_state: SIE }
    }

    /// The interrupt state to be restored before the coroutine is polled. Interrupts are
    /// disabled.
    pub fn begin_poll(&self, irqs_enabled: bool) -> (saved: usize)
        requires
            !irqs_enabled,
        ensures
            saved == self.irq_state,
    {
        self.irq_state
    }

    /// Keeps the interrupt state that the coroutine was left with.
    pub fn end_poll(&mut self, saved: usize)
        ensures
            *final(self) == (IrqCorotineWrapper { irq_state: saved, ..*old(self) }),
    {
        self.irq_state = saved;
    }
}

/// The coroutine of a task.
#[derive(Clone, Copy, Debug, Eq, PartialEq, Structural)]
pub enum Coroutine {
    /// Of a user task, by number.
    Plain { inner: usize },
    /// Of a kernel task.
    Irq { wrapper: IrqCorotineWrapper },
}

/// A task of the kernel's own task API.
#[derive(Clone, Copy, Debug, Eq, PartialEq, Structural)]
pub struct AxTask {
    pub id: u64,
    pub state: AxTaskState,
}

/// A change of the kernel task under whose identity a CPU runs: the task is made current
/// where `install_current` says so, and its entry hook is called.
#[derive(Clone, Copy, Debug, Eq, PartialEq, Structural)]
pub struct EnterContext {
    pub task: u64,
    pub install_current: bool,
}

/// What follows when a handler gives its owner up: the exit hook of `leave` is called,
/// and `install` is made current.
#[derive(Clone, Copy, Debug, Eq, PartialEq, Structural)]
pub struct LeaveContext {
    pub leave: u64,
    pub install: u64,
}

/// How a task's registers are restored: under which identity, from which frame, and
/// whether by a return from a trap.
#[derive(Clone, Copy, Debug, Eq, PartialEq, Structural)]
pub struct RestoreContext {
    pub enter: EnterContext,
    pub frame: UserTrapFrame,
    pub sret: bool,
}

/// A task of the external scheduler.
#[derive(Clone, Copy, Debug, Eq, PartialEq, Structural)]
pub struct VschedTaskImpl {
    pub task: AxTask,
    /// The kernel task under whose identity this one runs, if not its own. A trap handler
    /// gets another for every trap that it handles.
    pub execution_task: Option<u64>,
    pub priority: isize,
    /// Whether the task runs in the kernel, whatever address space it belongs to.
    pub is_kernel: bool,
    pub pid: usize,
    /// Counts up whenever wakers that are still around must not wake the task any more.
    pub wake_generation: usize,
    pub is_coroutine: bool,
    /// The task only holds what an interrupt found while a CPU's scheduler waited. It is
    /// in no ready queue.
    pub is_scheduler_wait_context: bool,
    /// An interrupt made a thread of the task's coroutine: it becomes a coroutine again
    /// when its context is restored.
    pub resume_to_coroutine: bool,
    pub return_value: isize,
    pub thread_stack_base: usize,
    /// The stack object of the thread, or 0.
    pub thread_stack_ptr: usize,
    pub coroutine: Option<Coroutine>,
    /// Where the task's address space has the scheduler's code.
    pub user_vdso_base: usize,
    /// The task's frame, by address, or 0 if it has none yet.
    pub trap_frame: usize,
    pub user_page_table_root: usize,
    pub user_aspace_ptr: usize,
    /// Whose trap is being handled, by address, or 0.
    pub trap_owner: usize,
    pub shared_task_key: Option<UserTaskKey>,
}

/// Whether the task's slot, if it has one, is live and in a scheduling state.
pub open spec fn slot_current(task: VschedTaskImpl, table: SharedTaskTable) -> bool {
    task.shared_task_key matches Some(key) ==> table.live(key) && is_raw_state(
        table.of(key).task_state,
    )
}

impl VschedTaskImpl {
    /// A new task.
    pub open spec fn fresh(
        task: AxTask,
        priority: isize,
        pid: usize,
        is_kernel: bool,
        coroutine: Option<Coroutine>,
    ) -> VschedTaskImpl {
        VschedTaskImpl {
            task,
            execution_task: None,
            priority,
            is_kernel,
            pid,
            wake_generation: 1,
            is_coroutine: coroutine.is_some(),
            is_scheduler_wait_context: false,
            resume_to_coroutine: false,
            return_value: 0,
            thread_stack_base: 0,
            thread_stack_ptr: 0,
            coroutine,
            user_vdso_base: 0,
            trap_frame: 0,
            user_page_table_root: 0,
            user_aspace_ptr: 0,
            trap_owner: 0,
            shared_task_key: None,
        }
    }

    /// Makes a task.
    pub fn new(
        task: AxTask,
        priority: isize,
        pid: usize,
        is_kernel: bool,
        coroutine: Option<Coroutine>,
    ) -> (r: Self)
        ensures
            r == VschedTaskImpl::fresh(task, priority, pid, is_kernel, coroutine),
    {
        VschedTaskImpl {
            task,
            execution_task: None,
            priority,
            is_kernel,
            pid,
            wake_generation: 1,
            is_coroutine: coroutine.is_some(),
            is_scheduler_wait_context: false,
            resume_to_coroutine: false,
            return_value: 0,
            thread_stack_base: 0,
            thread_stack_ptr: 0,
            coroutine,
            user_vdso_base: 0,
            trap_frame: 0,
            user_page_table_root: 0,
            user_aspace_ptr: 0,
            trap_owner: 0,
            shared_task_key: None,
        }
    }

    /// The kernel task.
    pub fn inner(&self) -> (task: &AxTask)
        ensures
            *task == self.task,
    {
        &self.task
    }

    /// The task's shared handle.
    pub fn shared_task_key(&self) -> (key: Option<UserTaskKey>)
        ensures
            key == self.shared_task_key,
    {
        self.shared_task_key
    }

    /// The ID by which a user scheduler knows the task.
    pub open spec fn spec_task_id(self) -> Option<usize> {
        match self.shared_task_key {
            Some(key) => if key.encodable() {
                Some(task_id(key) as usize)
            } else {
                None
            },
            None => None,
        }
    }

    /// The ID by which a user scheduler knows the task.
    pub fn task_id(&self) -> (id: Option<usize>)
        ensures
            id == self.spec_task_id(),
    {
        match self.shared_task_key {
            Some(key) => encode_task(key),
            None => None,
        }
    }

    /// Gives the task its shared handle. It has none yet.
    pub fn install_shared_task_key(&mut self, key: UserTaskKey)
        requires
            old(self).shared_task_key.is_none(),
        ensures
            *final(self) == (VschedTaskImpl { shared_task_key: Some(key), ..*old(self) }),
    {
        self.shared_task_key = Some(key);
    }

    /// Takes the shared handle from the task.
    pub fn take_shared_task_key(&mut self) -> (key: Option<UserTaskKey>)
        ensures
            key == old(self).shared_task_key,
            *final(self) == (VschedTaskImpl { shared_task_key: None, ..*old(self) }),
    {
        let key: Option<UserTaskKey> = self.shared_task_key;
        self.shared_task_key = None;
        key
    }

    /// The form of context that a coroutine or a thread has.
    pub open spec fn kind_of(is_coroutine: bool) -> usize {
        if is_coroutine {
            SHARED_CONTEXT_COROUTINE
        } else {
            SHARED_CONTEXT_THREAD
        }
    }

    /// Makes a coroutine or a thread of the task, here and in its slot.
    pub fn set_coroutine(&mut self, table: &mut SharedTaskTable, is_coroutine: bool)
        requires
            old(self).shared_task_key matches Some(key) ==> old(table).live(key),
        ensures
            *final(self) == (VschedTaskImpl { is_coroutine, ..*old(self) }),
            old(self).shared_task_key.is_none() ==> final(table).slots@ == old(table).slots@,
            old(self).shared_task_key matches Some(key) ==> final(table).is_update(
                *old(table),
                key,
                (SharedTaskSlot {
                    context_kind: VschedTaskImpl::kind_of(is_coroutine),
                    ..old(table).of(key)
                }),
            ),
            old(table).wf() ==> final(table).wf(),
    {
        self.is_coroutine = is_coroutine;
        if let Some(key) = self.shared_task_key {
            let kind: usize = if is_coroutine {
                SHARED_CONTEXT_COROUTINE
            } else {
                SHARED_CONTEXT_THREAD
            };
            table.set_context_kind(key, kind);
        }
    }

    /// The kernel task under whose identity this one runs.
    pub open spec fn identity(self) -> u64 {
        match self.execution_task {
            Some(task) => task,
            None => self.task.id,
        }
    }

    /// The kernel task under whose identity this one runs.
    pub fn execution_task(&self) -> (task: u64)
        ensures
            task == self.identity(),
    {
        match self.execution_task {
            Some(task) => task,
            None => self.task.id,
        }
    }

    /// Lets a CPU run under the task's identity.
    pub fn enter_execution_context(&self, install_current: bool) -> (enter: EnterContext)
        ensures
            enter == (EnterContext { task: self.identity(), install_current }),
    {
        EnterContext { task: self.execution_task(), install_current }
    }

    /// The kernel task whose exit hook is called when a CPU stops running under the task's
    /// identity.
    pub fn leave_execution_context(&self) -> (task: u64)
        ensures
            task == self.identity(),
    {
        self.execution_task()
    }

    /// Lets a trap handler run under the identity of the user task whose trap it handles.
    /// The two stay bound while the handler blocks.
    pub fn bind_execution_task(&mut self, owner_addr: usize, owner: &VschedTaskImpl) -> (enter:
        EnterContext)
        requires
            owner_addr != 0,
            old(self).execution_task.is_none(),
        ensures
            *final(self) == (VschedTaskImpl {
                execution_task: Some(owner.task.id),
                trap_owner: match owner.spec_task_id() {
                    Some(id) => id,
                    None => owner_addr,
                },
                ..*old(self)
            }),
            enter == (EnterContext { task: owner.task.id, install_current: true }),
    {
        self.execution_task = Some(owner.task.id);
        self.trap_owner = match owner.task_id() {
            Some(id) => id,
            None => owner_addr,
        };
        self.enter_execution_context(true)
    }

    /// Takes the owner from a handler. Wakers of the trap that was handled belong to an
    /// older generation from then on, and cannot wake the handler of a later one.
    pub fn unbind_execution_task(&mut self) -> (leave: LeaveContext)
        requires
            old(self).execution_task.is_some(),
        ensures
            *final(self) == (VschedTaskImpl {
                wake_generation: old(self).wake_generation.wrapping_add(1),
                trap_owner: 0,
                execution_task: None,
                ..*old(self)
            }),
            leave == (LeaveContext { leave: old(self).identity(), install: old(self).task.id }),
    {
        let leave: u64 = self.leave_execution_context();
        self.wake_generation = self.wake_generation.wrapping_add(1);
        self.trap_owner = 0;
        self.execution_task = None;
        LeaveContext { leave, install: self.task.id }
    }

    /// Whether the task handles a trap.
    pub fn has_execution_task(&self) -> (b: bool)
        ensures
            b == self.execution_task.is_some(),
    {
        self.execution_task.is_some()
    }

    /// Makes the task the one that holds what interrupts find while a CPU's scheduler
    /// waits: a kernel coroutine that is not that already.
    pub fn mark_scheduler_wait_context(&mut self)
        requires
            old(self).is_kernel,
            old(self).is_coroutine,
            !old(self).is_scheduler_wait_context,
        ensures
            *final(self) == (VschedTaskImpl { is_scheduler_wait_context: true, ..*old(self) }),
    {
        self.is_scheduler_wait_context = true;
    }

    /// Whether an interrupt of the task takes the stack from the CPU.
    pub open spec fn gives_stack_up(self) -> bool {
        self.is_scheduler_wait_context || (self.is_kernel && self.is_coroutine)
    }

    /// Whether an interrupt of the task takes the stack from the CPU.
    pub fn takes_current_stack(&self) -> (b: bool)
        ensures
            b == self.gives_stack_up(),
    {
        self.is_scheduler_wait_context || (self.is_kernel && self.is_coroutine)
    }

    /// Takes over the stack that an interrupted task was using. `stack` is the stack that
    /// was taken from the CPU; it is not looked at where none is taken.
    ///
    /// What a CPU's scheduler used while it waited is used again for the next trap: there
    /// is nothing on it to come back to.
    pub fn prepare_interrupted_kernel_context(
        &mut self,
        table: &mut SharedTaskTable,
        stack: usize,
    ) -> (taken: bool)
        requires
            old(self).gives_stack_up() ==> stack != 0,
            old(self).gives_stack_up() && !old(self).is_scheduler_wait_context ==> !old(self).resume_to_coroutine && (old(self).shared_task_key matches Some(key) ==> old(table).live(key)),
        ensures
            taken == old(self).gives_stack_up(),
            *final(self) == (if old(self).is_scheduler_wait_context {
                (VschedTaskImpl { thread_stack_ptr: stack, ..*old(self) })
            } else if taken {
                old(self).promoted(stack)
            } else {
                *old(self)
            }),
            old(self).is_scheduler_wait_context || !taken || old(self).shared_task_key.is_none()
                ==> final(table).slots@ == old(table).slots@,
            !old(self).is_scheduler_wait_context && taken ==> (old(self).shared_task_key matches Some(key) ==> final(table).is_update(
                *old(table),
                key,
                (SharedTaskSlot { context_kind: SHARED_CONTEXT_THREAD, ..old(table).of(key) }),
            )),
            old(table).wf() ==> final(table).wf(),
    {
        if self.is_scheduler_wait_context {
            self.thread_stack_ptr = stack;
            return true;
        }
        self.promote_interrupted_kernel_coroutine(table, stack)
    }

    /// The task after an interrupt made a thread of its coroutine.
    pub open spec fn promoted(self, stack: usize) -> VschedTaskImpl {
        VschedTaskImpl {
            thread_stack_ptr: stack,
            resume_to_coroutine: true,
            is_coroutine: false,
            ..self
        }
    }

    /// Makes a thread of a kernel coroutine that was interrupted. `stack`, on which it was
    /// running, becomes the thread's: no scheduler may use it again before the thread has
    /// gone on.
    pub fn promote_interrupted_kernel_coroutine(
        &mut self,
        table: &mut SharedTaskTable,
        stack: usize,
    ) -> (promoted: bool)
        requires
            old(self).is_kernel && old(self).is_coroutine ==> !old(self).resume_to_coroutine
                && stack != 0 && (old(self).shared_task_key matches Some(key) ==> old(table).live(
                key,
            )),
        ensures
            promoted == (old(self).is_kernel && old(self).is_coroutine),
            *final(self) == (if promoted {
                old(self).promoted(stack)
            } else {
                *old(self)
            }),
            !promoted || old(self).shared_task_key.is_none() ==> final(table).slots@ == old(table).slots@,
            promoted ==> (old(self).shared_task_key matches Some(key) ==> final(table).is_update(
                *old(table),
                key,
                (SharedTaskSlot { context_kind: SHARED_CONTEXT_THREAD, ..old(table).of(key) }),
            )),
            old(table).wf() ==> final(table).wf(),
    {
        if !self.is_kernel || !self.is_coroutine {
            return false;
        }
        self.thread_stack_ptr = stack;
        self.resume_to_coroutine = true;
        self.set_coroutine(table, false);
        true
    }

    /// Gives a thread that yields the stack that it was using on this CPU: the scheduler
    /// may go on here, or the thread on another CPU, so nobody else may use it.
    pub fn detach_thread_stack_for_resched(&mut self, stack: usize)
        requires
            !old(self).is_coroutine,
            stack != 0,
            old(self).thread_stack_ptr == 0 || old(self).thread_stack_ptr == stack,
        ensures
            *final(self) == (VschedTaskImpl { thread_stack_ptr: stack, ..*old(self) }),
    {
        self.thread_stack_ptr = stack;
    }

    /// The task's scheduling state.
    pub open spec fn current_state(self, table: SharedTaskTable) -> TaskState {
        match self.shared_task_key {
            Some(key) => if table.live(key) {
                state_of_raw(table.of(key).task_state)
            } else {
                vsched_state(self.task.state)
            },
            None => vsched_state(self.task.state),
        }
    }

    /// The task's scheduling state.
    pub fn state(&self, table: &SharedTaskTable) -> (state: TaskState)
        requires
            self.shared_task_key matches Some(key) ==> table.live(key) ==> is_raw_state(
                table.of(key).task_state,
            ),
        ensures
            state == self.current_state(*table),
    {
        if let Some(key) = self.shared_task_key {
            if let Some(state) = table.task_state(key) {
                return state_from_raw(state);
            }
        }
        to_vsched_state(self.task.state)
    }

    /// The task in another scheduling state.
    pub open spec fn with_state(self, state: TaskState) -> VschedTaskImpl {
        VschedTaskImpl { task: AxTask { state: ax_state(state), ..self.task }, ..self }
    }

    /// Whether `table` is `before` with the task's slot, if it has one, in state `state`.
    pub open spec fn slot_moved(
        self,
        before: SharedTaskTable,
        table: SharedTaskTable,
        state: TaskState,
    ) -> bool {
        match self.shared_task_key {
            Some(key) => table.is_update(
                before,
                key,
                SharedTaskSlot { task_state: raw_state(state), ..before.of(key) },
            ),
            None => table.slots@ == before.slots@,
        }
    }

    /// Sets the scheduling state, here and in the slot, and returns the one before.
    pub fn set_state(&mut self, table: &mut SharedTaskTable, state: TaskState) -> (previous:
        TaskState)
        requires
            slot_current(*old(self), *old(table)),
        ensures
            previous == old(self).current_state(*old(table)),
            *final(self) == old(self).with_state(state),
            old(self).slot_moved(*old(table), *final(table), state),
            old(table).wf() ==> final(table).wf(),
            slot_current(*final(self), *final(table)),
    {
        if let Some(key) = self.shared_task_key {
            let raw: usize = state_to_raw(state);
            let previous: Option<usize> = table.swap_task_state(key, raw);
            self.task.state = from_vsched_state(state_from_raw(raw));
            return state_from_raw(previous.unwrap());
        }
        let previous: AxTaskState = self.task.state;
        self.task.state = from_vsched_state(state);
        to_vsched_state(previous)
    }

    /// Moves the task to the state that is given for its present one, here and in the
    /// slot, and returns the present one.
    pub fn match_set_state(
        &mut self,
        table: &mut SharedTaskTable,
        state_from_ready: TaskState,
        state_from_running: TaskState,
        state_from_blocked: TaskState,
        state_from_exited: TaskState,
        state_from_blocking: TaskState,
    ) -> (previous: TaskState)
        requires
            slot_current(*old(self), *old(table)),
        ensures
            previous == old(self).current_state(*old(table)),
            ({
                let next = state_after_match(
                    previous,
                    state_from_ready,
                    state_from_running,
                    state_from_blocked,
                    state_from_exited,
                    state_from_blocking,
                );
                &&& *final(self) == old(self).with_state(next)
                &&& old(self).slot_moved(*old(table), *final(table), next)
            }),
            old(table).wf() ==> final(table).wf(),
            slot_current(*final(self), *final(table)),
    {
        if let Some(key) = self.shared_task_key {
            let found: Option<usize> = table.match_set_task_state(
                key,
                state_to_raw(state_from_ready),
                state_to_raw(state_from_running),
                state_to_raw(state_from_blocked),
                state_to_raw(state_from_exited),
                state_to_raw(state_from_blocking),
            );
            let previous: TaskState = state_from_raw(found.unwrap());
            let next: TaskState = select_state(
                previous,
                state_from_ready,
                state_from_running,
                state_from_blocked,
                state_from_exited,
                state_from_blocking,
            );
            self.task.state = from_vsched_state(next);
            return previous;
        }
        let previous: TaskState = to_vsched_state(self.task.state);
        let next: TaskState = select_state(
            previous,
            state_from_ready,
            state_from_running,
            state_from_blocked,
            state_from_exited,
            state_from_blocking,
        );
        self.task.state = from_vsched_state(next);
        previous
    }

    /// The task's priority: that of its slot, if it has one.
    pub fn priority(&self, table: &SharedTaskTable) -> (priority: isize)
        ensures
            priority == (match self.shared_task_key {
                Some(key) => if table.live(key) {
                    table.of(key).priority
                } else {
                    self.priority
                },
                None => self.priority,
            }),
    {
        if let Some(key) = self.shared_task_key {
            if let Some(priority) = table.priority(key) {
                return priority;
            }
        }
        self.priority
    }

    /// Whether the task is a coroutine: as its slot says, if it has one.
    pub fn is_coroutine(&self, table: &SharedTaskTable) -> (b: bool)
        ensures
            b == (match self.shared_task_key {
                Some(key) => if table.live(key) {
                    table.of(key).context_kind == SHARED_CONTEXT_COROUTINE
                } else {
                    self.is_coroutine
                },
                None => self.is_coroutine,
            }),
    {
        if let Some(key) = self.shared_task_key {
            if let Some(kind) = table.context_kind(key) {
                return kind == SHARED_CONTEXT_COROUTINE;
            }
        }
        self.is_coroutine
    }

    /// Whether the task runs in the kernel.
    pub fn is_kernel(&self) -> (b: bool)
        ensures
            b == self.is_kernel,
    {
        self.is_kernel
    }

    /// The process in whose address space the task runs: that of its slot, if it has one.
    pub fn pid(&self, table: &SharedTaskTable) -> (pid: usize)
        ensures
            pid == (match self.shared_task_key {
                Some(key) => if table.live(key) && is_user_raw(table.of(key).process_id) {
                    table.of(key).process_id
                } else {
                    self.pid
                },
                None => self.pid,
            }),
    {
        if let Some(key) = self.shared_task_key {
            if let Some(id) = table.process_id(key) {
                return id.as_raw();
            }
        }
        self.pid
    }

    /// Moves the task to another process, here and in its slot.
    pub fn set_pid(&mut self, table: &mut SharedTaskTable, pid: usize)
        requires
            old(self).shared_task_key matches Some(key) ==> old(table).live(key) && is_user_raw(
                pid,
            ),
        ensures
            *final(self) == (VschedTaskImpl { pid, ..*old(self) }),
            old(self).shared_task_key.is_none() ==> final(table).slots@ == old(table).slots@,
            old(self).shared_task_key matches Some(key) ==> final(table).is_update(
                *old(table),
                key,
                (SharedTaskSlot { process_id: pid, ..old(table).of(key) }),
            ),
            old(table).wf() ==> final(table).wf(),
    {
        self.pid = pid;
        if let Some(key) = self.shared_task_key {
            if let Some(id) = VschedProcessId::from_user_raw(pid) {
                table.set_process_id(key, id);
            }
        }
    }

    /// Restores the task's registers from its frame. A coroutine that an interrupt made a thread of is
    /// one again: its stack is the CPU's already, and the next interrupt takes it again.
    pub fn restore_context(
        &mut self,
        table: &mut SharedTaskTable,
        frames: &BTreeMap<usize, UserTrapFrame>,
    ) -> (restore: RestoreContext)
        requires
            frames@.contains_key(old(self).trap_frame),
            old(self).resume_to_coroutine ==> !old(self).is_coroutine && (old(self).shared_task_key matches Some(key) ==> old(table).live(key)),
        ensures
            restore == (RestoreContext {
                enter: EnterContext {
                    task: old(self).identity(),
                    install_current: old(self).is_kernel,
                },
                frame: frames@[old(self).trap_frame],
                sret: old(self).resume_to_coroutine,
            }),
            *final(self) == (if old(self).resume_to_coroutine {
                (VschedTaskImpl {
                    resume_to_coroutine: false,
                    thread_stack_ptr: 0,
                    is_coroutine: true,
                    ..*old(self)
                })
            } else {
                *old(self)
            }),
            !old(self).resume_to_coroutine || old(self).shared_task_key.is_none() ==> final(table).slots@ == old(table).slots@,
            old(self).resume_to_coroutine ==> (old(self).shared_task_key matches Some(key)
                ==> final(table).is_update(
                *old(table),
                key,
                (SharedTaskSlot { context_kind: SHARED_CONTEXT_COROUTINE, ..old(table).of(key) }),
            )),
            old(table).wf() ==> final(table).wf(),
    {
        broadcast use vstd::std_specs::btree::group_btree_axioms;

        let enter: EnterContext = self.enter_execution_context(self.is_kernel);
        let frame: UserTrapFrame = *frames.get(&self.trap_frame).unwrap();
        if self.resume_to_coroutine {
            self.resume_to_coroutine = false;
            self.thread_stack_ptr = 0;
            self.set_coroutine(table, true);
            return RestoreContext { enter, frame, sret: true };
        }
        RestoreContext { enter, frame, sret: false }
    }

    /// Begins to poll the task's coroutine: which one it is, and under which identity.
    pub fn begin_poll(&self) -> (poll: (Coroutine, EnterContext))
        requires
            self.coroutine.is_some(),
        ensures
            poll.0 == self.coroutine.unwrap(),
            poll.1 == (EnterContext { task: self.identity(), install_current: self.is_kernel }),
    {
        (self.coroutine.unwrap(), self.enter_execution_context(self.is_kernel))
    }

    /// Ends a poll of the task's coroutine. Keeps the value of one that has finished, and
    /// returns the kernel task whose exit hook is called.
    pub fn end_poll(&mut self, finished: Option<isize>) -> (leave: u64)
        ensures
            leave == old(self).identity(),
            *final(self) == (match finished {
                Some(value) => (VschedTaskImpl { return_value: value, ..*old(self) }),
                None => *old(self),
            }),
    {
        let leave: u64 = self.leave_execution_context();
        if let Some(value) = finished {
            self.return_value = value;
        }
        leave
    }

    /// The stack object of the thread, or 0.
    pub fn thread_stack(&self) -> (stack: usize)
        ensures
            stack == self.thread_stack_ptr,
    {
        self.thread_stack_ptr
    }

    /// Keeps the value that the task returned.
    pub fn set_return_value(&mut self, value: isize)
        ensures
            *final(self) == (VschedTaskImpl { return_value: value, ..*old(self) }),
    {
        self.return_value = value;
    }

    /// Ends a kernel thread: wakers that are still around cannot wake it any more.
    pub fn finish_kernel_thread(&mut self)
        ensures
            *final(self) == (VschedTaskImpl {
                wake_generation: old(self).wake_generation.wrapping_add(1),
                ..*old(self)
            }),
    {
        self.wake_generation = self.wake_generation.wrapping_add(1);
    }
}

fn select_state(
    current: TaskState,
    state_from_ready: TaskState,
    state_from_running: TaskState,
    state_from_blocked: TaskState,
    state_from_exited: TaskState,
    state_from_blocking: TaskState,
) -> (next: TaskState)
    ensures
        next == state_after_match(
            current,
            state_from_ready,
            state_from_running,
            state_from_blocked,
            state_from_exited,
            state_from_blocking,
        ),
{
    match current {
        TaskState::Ready => state_from_ready,
        TaskState::Running => state_from_running,
        TaskState::Blocked => state_from_blocked,
        TaskState::Exited => state_from_exited,
        TaskState::Blocking => state_from_blocking,
    }
}

/// The status word with which a kernel thread starts: a return from a trap goes to the
/// kernel, with interrupts disabled.
pub const KERNEL_THREAD_SSTATUS: usize = 256;

/// How a kernel thread starts: at `entry`, on the stack of its kernel task, if that has one.
#[derive(Clone, Copy, Debug, Eq, PartialEq, Structural)]
pub struct KernelThreadStart {
    pub stack_top: Option<usize>,
    pub kernel_gp: usize,
    pub entry: usize,
}

impl KernelThreadStart {
    /// The frame from which the thread starts, if its kernel task has a stack.
    pub open spec fn frame(self) -> Option<UserTrapFrame> {
        match self.stack_top {
            Some(top) => Some(
                UserTrapFrame {
                    regs: UserGeneralRegs {
                        sp: top,
                        gp: self.kernel_gp,
                        ..UserGeneralRegs::zeroed()
                    },
                    sepc: self.entry,
                    sstatus: KERNEL_THREAD_SSTATUS,
                    scause: 0,
                    stval: 0,
                    kind: UserTrapFrameKind::Trap,
                },
            ),
            None => None,
        }
    }
}

/// The frame with which a kernel thread starts: at `entry`, on its own stack.
pub fn initial_kernel_thread_frame(stack_top: Option<usize>, kernel_gp: usize, entry: usize) -> (
frame: Option<UserTrapFrame>)
    ensures
        frame == (KernelThreadStart { stack_top, kernel_gp, entry }).frame(),
{
    match stack_top {
        Some(top) => {
            let mut regs: UserGeneralRegs = UserGeneralRegs::default();
            regs.sp = top;
            regs.gp = kernel_gp;
            Some(
                UserTrapFrame {
                    regs,
                    sepc: entry,
                    sstatus: KERNEL_THREAD_SSTATUS,
                    scause: 0,
                    stval: 0,
                    kind: UserTrapFrameKind::Trap,
                },
            )
        },
        None => None,
    }
}

/// A coroutine that was interrupted and restored is as it was, but for the stack, which
/// is the CPU's again.
pub proof fn law_restore_undoes_promotion(task: VschedTaskImpl, stack: usize)
    requires
        task.is_kernel,
        task.is_coroutine,
        !task.resume_to_coroutine,
        task.thread_stack_ptr == 0,
    ensures
        (VschedTaskImpl {
            resume_to_coroutine: false,
            thread_stack_ptr: 0,
            is_coroutine: true,
            ..task.promoted(stack)
        }) == task,
{
}

/// A task and its slot are in the same state after every change of state.
pub proof fn law_slot_follows_the_task(
    task: VschedTaskImpl,
    before: SharedTaskTable,
    after: SharedTaskTable,
    state: TaskState,
)
    requires
        slot_current(task, before),
        task.slot_moved(before, after, state),
    ensures
        task.with_state(state).current_state(after) == state,
        vsched_state(task.with_state(state).task.state) == state,
{
}

} // verus!
