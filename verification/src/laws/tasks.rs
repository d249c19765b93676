//! Task objects: what they are, where they are found, and what the scheduler does to them.

use std::collections::BTreeMap;

use vstd::prelude::*;

use crate::abi::process::VschedProcessId;
use crate::abi::table::SharedTaskTable;
use crate::abi::task::UserTaskKey;
use crate::laws::blocking::state_at;
use crate::sched::dispatch::{dealloc_task, Deallocated, TaskImpl};
use crate::sched::init_task::{create_vsched_init_task, InitTaskParts};
use crate::sched::registry::{
    can_register, direct_task, read_frame, register_task, register_user_task, take_user_task,
    task_for_user_key, task_from_raw, unregister_user_task, with_direct_task,
    with_registered_user_task, with_vsched_task, SchedTasks, TaskPlacement,
};
use crate::sched::task::{
    initial_kernel_thread_frame, AxTask, Coroutine, EnterContext, IrqCorotineWrapper, LeaveContext,
    RestoreContext, VschedTaskImpl,
};
use crate::sched::trapframe::UserTrapFrame;
use crate::state::{AxTaskState, TaskState};

verus! {

/// Whether two kinds of state are the same state.
pub open spec fn same_state(a: TaskState, b: AxTaskState) -> bool {
    match a {
        TaskState::Ready => b is Ready,
        TaskState::Running => b is Running,
        TaskState::Blocked => b is Blocked,
        TaskState::Exited => b is Exited,
        TaskState::Blocking => b is Blocking,
    }
}

/// A task ID names the object that is registered under its handle, while its slot is live in
/// its generation; an even number names itself, and 0 nothing.
pub proof fn law_names_find_their_objects(tasks: SchedTasks, raw: usize, addr: Option<usize>)
    requires
        call_ensures(direct_task, (&tasks, raw), addr),
    ensures
        raw == 0 ==> addr is None,
        raw != 0 && raw % 2 == 0 ==> addr == Some(raw),
        raw % 2 == 1 && raw / 128 != 0 ==> {
            let key = UserTaskKey { slot: (raw / 2) % 64, generation: raw / 128 };
            let slot = tasks.table.slots@[key.slot as int];
            &&& addr is Some <==> tasks.is_registered(key) && slot.generation == key.generation
                && slot.state == 2
            &&& addr matches Some(a) ==> a == tasks.object_of(key)
        },
{
}

/// Each of the ways to look a task up gives the object that its name stands for.
pub proof fn law_lookups_agree(
    tasks: SchedTasks,
    raw: usize,
    key: UserTaskKey,
    object: Option<&VschedTaskImpl>,
    task: Option<AxTask>,
    by_key: Option<AxTask>,
    frame: Option<UserTrapFrame>,
)
    requires
        call_ensures(with_vsched_task, (&tasks, raw), object),
        call_ensures(task_from_raw, (&tasks, raw), task),
        call_ensures(task_for_user_key, (&tasks, key), by_key),
        call_ensures(read_frame, (&tasks, raw), frame),
    ensures
        object is Some <==> tasks.resolve(raw) is Some,
        task is Some <==> tasks.resolve(raw) is Some,
        tasks.resolve(raw) matches Some(addr) ==> {
            &&& object == Some(&tasks.objects@[addr])
            &&& task == Some(tasks.objects@[addr].task)
            &&& tasks.objects@.contains_key(addr) && tasks.objects@[addr].trap_frame != 0
                ==> frame == Some(tasks.frames@[tasks.objects@[addr].trap_frame])
            &&& tasks.objects@.contains_key(addr) && tasks.objects@[addr].trap_frame == 0
                ==> frame is None
        },
        by_key is Some <==> tasks.is_registered(key) && tasks.table.live(key),
        by_key is Some ==> by_key == Some(tasks.objects@[tasks.object_of(key)].task),
{
}

/// A new task is what it was asked to be: a thread with a stack, or a coroutine without one; a
/// kernel thread starts from a frame of its own, and a kernel coroutine can be interrupted. It
/// has no handle, handles no trap, and nothing else changes.
pub proof fn law_new_task_is_as_asked_for(
    tasks: &mut SchedTasks,
    place: TaskPlacement,
    task: AxTask,
    priority: isize,
    pid: usize,
    is_kernel: bool,
    coroutine: Option<usize>,
    vdso_base: usize,
    addr: usize,
    other: usize,
)
    requires
        call_ensures(
            register_task,
            (tasks, place, task, priority, pid, is_kernel, coroutine, vdso_base),
            addr,
        ),
        other != addr,
    ensures
        addr == place.addr,
        ({
            let made = final(tasks).objects@[addr];
            &&& final(tasks).objects@.contains_key(addr)
            &&& made.task == task
            &&& made.priority == priority
            &&& made.pid == pid
            &&& made.is_kernel == is_kernel
            &&& made.user_vdso_base == vdso_base
            &&& made.is_coroutine == coroutine.is_some()
            &&& coroutine is None ==> made.thread_stack_ptr == place.stack && made.coroutine is None
            &&& coroutine is Some ==> made.thread_stack_ptr == 0
            &&& coroutine matches Some(inner) ==> made.coroutine == Some(
                if is_kernel {
                    Coroutine::Irq { wrapper: IrqCorotineWrapper { inner, irq_state: 2 } }
                } else {
                    Coroutine::Plain { inner }
                },
            )
            &&& made.trap_frame != 0 ==> is_kernel && coroutine is None && made.trap_frame
                == place.frame
            &&& is_kernel && coroutine is None ==> (place.start.stack_top matches Some(top)
                ==> made.trap_frame == place.frame && ({
                let frame = final(tasks).frames@[place.frame];
                frame.regs.sp == top && frame.sepc == place.start.entry && frame.regs.gp
                    == place.start.kernel_gp && frame.sstatus == 0x100
            }))
            &&& made.wake_generation == 1
            &&& made.return_value == 0
            &&& made.thread_stack_base == 0
            &&& made.user_page_table_root == 0
            &&& made.user_aspace_ptr == 0
            &&& made.execution_task is None
            &&& made.trap_owner == 0
            &&& made.shared_task_key is None
            &&& !made.is_scheduler_wait_context
            &&& !made.resume_to_coroutine
        }),
        final(tasks).objects@.contains_key(other) <==> old(tasks).objects@.contains_key(other),
        final(tasks).objects@[other] == old(tasks).objects@[other],
        final(tasks).frame_of(other) == old(tasks).frame_of(other),
        final(tasks).table == old(tasks).table,
{
}

/// The first user task is a thread of the first process, of the highest priority, with what it
/// was given.
pub proof fn law_first_user_task_is_as_given(
    tasks: &mut SchedTasks,
    place: TaskPlacement,
    task: AxTask,
    parts: InitTaskParts,
    addr: usize,
)
    requires
        call_ensures(create_vsched_init_task, (tasks, place, task, parts), addr),
    ensures
        addr == place.addr,
        ({
            let made = final(tasks).objects@[addr];
            &&& made.task == task
            &&& made.priority == 0
            &&& made.pid == 1
            &&& !made.is_kernel
            &&& !made.is_coroutine
            &&& made.thread_stack_ptr == parts.stack
            &&& made.trap_frame == parts.frame
            &&& made.user_page_table_root == parts.user_root
            &&& made.user_aspace_ptr == parts.aspace
            &&& made.user_vdso_base == parts.vdso_base
            &&& made.shared_task_key is None
            &&& final(tasks).frames@[parts.frame].sepc == parts.context.sepc
            &&& final(tasks).frames@[parts.frame].regs.sp == parts.context.regs.sp
            &&& final(tasks).frames@[parts.frame].regs.a0 == parts.context.regs.a0
            &&& final(tasks).frames@[parts.frame].sstatus == parts.context.sstatus
        }),
{
}

/// A user task that is registered is found by its new handle, and its slot shows the task: its
/// process, its priority, its state and its kind. Nothing else of any task changes.
pub proof fn law_registered_task_is_shown(
    tasks: &mut SchedTasks,
    task: usize,
    process_id: VschedProcessId,
    key: UserTaskKey,
    other: usize,
)
    requires
        call_ensures(register_user_task, (tasks, task, process_id), key),
        other != task,
    ensures
        ({
            let before = old(tasks).objects@[task];
            let after = final(tasks).objects@[task];
            let slot = final(tasks).table.slots@[key.slot as int];
            &&& key.slot < 64
            &&& old(tasks).table.slots@[key.slot as int].state == 0
            &&& after == (VschedTaskImpl { shared_task_key: Some(key), ..before })
            &&& final(tasks).is_registered(key)
            &&& final(tasks).object_of(key) == task
            &&& slot.state == 2
            &&& slot.generation == key.generation
            &&& slot.process_id == process_id@
            &&& slot.priority == before.priority
            &&& slot.context_kind == (if before.is_coroutine {
                1usize
            } else {
                2usize
            })
            &&& same_state(TaskState::Ready, before.task.state) ==> slot.task_state == 0
            &&& same_state(TaskState::Running, before.task.state) ==> slot.task_state == 1
            &&& same_state(TaskState::Blocked, before.task.state) ==> slot.task_state == 2
            &&& same_state(TaskState::Exited, before.task.state) ==> slot.task_state == 3
            &&& same_state(TaskState::Blocking, before.task.state) ==> slot.task_state == 4
            &&& slot.context_owner == usize::MAX
            &&& slot.queue_owner == usize::MAX
        }),
        final(tasks).objects@[other] == old(tasks).objects@[other],
        forall|k: UserTaskKey|
            k != key ==> (#[trigger] final(tasks).is_registered(k) <==> old(tasks).is_registered(
                k,
            )) && final(tasks).object_of(k) == old(tasks).object_of(k),
        forall|i: int|
            0 <= i < 64 && i != key.slot ==> #[trigger] final(tasks).table.slots@[i] == old(tasks).table.slots@[i],
{
}

/// A handle that is taken away is void, its slot is free, in another generation, and its object
/// has none; every other object stays as it was.
pub proof fn law_taken_handle_is_void(
    tasks: &mut SchedTasks,
    taken: &mut SchedTasks,
    task: usize,
    key: UserTaskKey,
    found: Option<usize>,
    other: usize,
)
    requires
        call_ensures(unregister_user_task, (tasks, task), ()),
        task != 0,
        old(tasks).objects@[task].shared_task_key == Some(key),
        key.slot < 64,
        other != task,
        call_ensures(take_user_task, (taken, key), found),
    ensures
        !final(tasks).is_registered(key),
        final(tasks).table.slots@[key.slot as int].state == 0,
        final(tasks).table.slots@[key.slot as int].generation != key.generation,
        final(tasks).objects@[task] == (VschedTaskImpl {
            shared_task_key: None,
            ..old(tasks).objects@[task]
        }),
        final(tasks).objects@[other] == old(tasks).objects@[other],
        forall|k: UserTaskKey|
            k != key ==> (#[trigger] final(tasks).is_registered(k) <==> old(tasks).is_registered(
                k,
            )),
        forall|i: int|
            0 <= i < 64 && i != key.slot ==> #[trigger] final(tasks).table.slots@[i] == old(tasks).table.slots@[i],
        found is Some <==> old(taken).is_registered(key),
        found matches Some(addr) ==> {
            &&& addr == old(taken).object_of(key)
            &&& !final(taken).is_registered(key)
            &&& final(taken).table.slots@[key.slot as int].state == 0
            &&& final(taken).objects@[addr].shared_task_key is None
        },
{
}

/// A task can be registered exactly if a slot is free and its next handle is nobody's.
pub proof fn law_free_slot_can_be_registered(
    tasks: SchedTasks,
    can: bool,
    next: Option<UserTaskKey>,
)
    requires
        call_ensures(can_register, (&tasks,), can),
    ensures
        can ==> exists|i: int| 0 <= i < 64 && (#[trigger] tasks.table.slots@[i]).state == 0,
        (forall|i: int| 0 <= i < 64 ==> (#[trigger] tasks.table.slots@[i]).state != 0) ==> !can,
        call_ensures(SharedTaskTable::next_key, (&tasks.table,), next) ==> (can <==> (
        next matches Some(key) && !tasks.is_registered(key))),
{
}

/// The scheduler sees the state that a task is in, and sets it: the task is then in that state,
/// here and in its slot, and the state before is returned.
pub proof fn law_scheduler_sets_the_state(
    task: TaskImpl,
    tasks: &mut SchedTasks,
    seen: TaskState,
    state: TaskState,
    previous: TaskState,
)
    requires
        call_ensures(TaskImpl::state, (&task, &*tasks), seen),
        call_ensures(TaskImpl::set_state, (&task, tasks, state), previous),
        old(tasks).resolve(task.raw) matches Some(addr) && (
        old(tasks).objects@[addr].shared_task_key matches Some(key) ==> old(tasks).table.live(
            key,
        ) && old(tasks).table.slots@[key.slot as int].task_state <= 4),
    ensures
        ({
            let addr = old(tasks).resolve(task.raw).unwrap();
            &&& same_state(seen, state_at(*old(tasks), addr))
            &&& previous == seen
            &&& same_state(state, state_at(*final(tasks), addr))
            &&& same_state(state, final(tasks).objects@[addr].task.state)
            &&& final(tasks).objects@[addr].task.id == old(tasks).objects@[addr].task.id
            &&& final(tasks).objects@[addr].wake_generation == old(tasks).objects@[addr].wake_generation
        }),
{
}

/// The scheduler moves a task to the state that it gives for the one the task is in.
pub proof fn law_scheduler_matches_the_state(
    task: TaskImpl,
    tasks: &mut SchedTasks,
    ready: TaskState,
    running: TaskState,
    blocked: TaskState,
    exited: TaskState,
    blocking: TaskState,
    previous: TaskState,
)
    requires
        call_ensures(
            TaskImpl::match_set_state,
            (&task, tasks, ready, running, blocked, exited, blocking),
            previous,
        ),
        old(tasks).resolve(task.raw) matches Some(addr) && (
        old(tasks).objects@[addr].shared_task_key matches Some(key) ==> old(tasks).table.live(
            key,
        ) && old(tasks).table.slots@[key.slot as int].task_state <= 4),
    ensures
        ({
            let addr = old(tasks).resolve(task.raw).unwrap();
            let before = state_at(*old(tasks), addr);
            let after = state_at(*final(tasks), addr);
            &&& same_state(previous, before)
            &&& before is Ready ==> same_state(ready, after)
            &&& before is Running ==> same_state(running, after)
            &&& before is Blocked ==> same_state(blocked, after)
            &&& before is Exited ==> same_state(exited, after)
            &&& before is Blocking ==> same_state(blocking, after)
            &&& final(tasks).objects@[addr].task.state == after
        }),
{
}

/// What the scheduler asks of a task is answered from its slot while that is live, and from the
/// task otherwise.
pub proof fn law_scheduler_reads_the_slot(
    task: TaskImpl,
    tasks: SchedTasks,
    priority: isize,
    coroutine: bool,
    kernel: bool,
    pid: usize,
    stack: usize,
)
    requires
        call_ensures(TaskImpl::priority, (&task, &tasks), priority),
        call_ensures(TaskImpl::is_coroutine, (&task, &tasks), coroutine),
        call_ensures(TaskImpl::is_kernel, (&task, &tasks), kernel),
        call_ensures(TaskImpl::pid, (&task, &tasks), pid),
        call_ensures(TaskImpl::thread_stack, (&task, &tasks), stack),
        tasks.resolve(task.raw) is Some,
    ensures
        ({
            let object = tasks.objects@[tasks.resolve(task.raw).unwrap()];
            &&& kernel == object.is_kernel
            &&& stack == object.thread_stack_ptr
            &&& (object.shared_task_key matches Some(key) && tasks.table.live(key)) ==> {
                let slot = tasks.table.slots@[object.shared_task_key.unwrap().slot as int];
                &&& priority == slot.priority
                &&& coroutine == (slot.context_kind == 1)
                &&& slot.process_id != 0 && slot.process_id != usize::MAX ==> pid
                    == slot.process_id
            }
            &&& (object.shared_task_key matches Some(key) ==> !tasks.table.live(key)) ==> priority
                == object.priority && coroutine == object.is_coroutine && pid == object.pid
            &&& (object.shared_task_key matches Some(key) && {
                let slot = tasks.table.slots@[key.slot as int];
                slot.process_id == 0 || slot.process_id == usize::MAX
            }) ==> pid == object.pid
        }),
{
}

/// A task that is moved to another process belongs to it, here and in its slot; a value that it
/// returned is kept.
pub proof fn law_scheduler_moves_a_task(
    task: TaskImpl,
    tasks: &mut SchedTasks,
    returned: &mut SchedTasks,
    pid: usize,
    value: isize,
)
    requires
        call_ensures(TaskImpl::set_pid, (&task, tasks, pid), ()),
        call_ensures(TaskImpl::set_return_value, (&task, returned, value), ()),
        old(tasks).resolve(task.raw) is Some,
        old(returned).resolve(task.raw) is Some,
        old(tasks).objects@[old(tasks).resolve(task.raw).unwrap()].shared_task_key matches Some(
            key,
        ) ==> key.slot < 64,
    ensures
        ({
            let addr = old(tasks).resolve(task.raw).unwrap();
            let before = old(tasks).objects@[addr];
            &&& final(tasks).objects@[addr] == (VschedTaskImpl { pid, ..before })
            &&& before.shared_task_key matches Some(key) ==> final(tasks).table.slots@[key.slot as int].process_id == pid
        }),
        ({
            let addr = old(returned).resolve(task.raw).unwrap();
            let before = old(returned).objects@[addr];
            &&& final(returned).objects@[addr] == (VschedTaskImpl { return_value: value, ..before })
        }),
{
}

/// A task is restored from its own frame, under the identity that it runs under; a coroutine
/// that an interrupt made a thread of is one again, without a stack, and by a return from a
/// trap.
pub proof fn law_task_is_restored_as_it_was(
    task: TaskImpl,
    tasks: &mut SchedTasks,
    restore: RestoreContext,
)
    requires
        call_ensures(TaskImpl::restore_context, (&task, tasks), restore),
        old(tasks).resolve(task.raw) matches Some(addr) && old(tasks).objects@.contains_key(addr)
            && old(tasks).objects@[addr].trap_frame != 0,
    ensures
        ({
            let addr = old(tasks).resolve(task.raw).unwrap();
            let before = old(tasks).objects@[addr];
            let after = final(tasks).objects@[addr];
            &&& restore.frame == old(tasks).frames@[before.trap_frame]
            &&& restore.sret == before.resume_to_coroutine
            &&& restore.enter.install_current == before.is_kernel
            &&& before.execution_task matches Some(id) ==> restore.enter.task == id
            &&& before.execution_task is None ==> restore.enter.task == before.task.id
            &&& before.resume_to_coroutine ==> after.is_coroutine && after.thread_stack_ptr == 0
                && !after.resume_to_coroutine
            &&& !before.resume_to_coroutine ==> after == before
            &&& after.trap_frame == before.trap_frame
            &&& after.task == before.task
            &&& before.resume_to_coroutine ==> (before.shared_task_key matches Some(key)
                ==> key.slot < 64 ==> final(tasks).table.slots@[key.slot as int].context_kind == 1)
        }),
{
}

/// A coroutine is polled under the identity that its task runs under.
pub proof fn law_coroutine_is_polled_under_its_identity(
    task: TaskImpl,
    tasks: SchedTasks,
    poll: (Coroutine, EnterContext),
)
    requires
        call_ensures(TaskImpl::begin_poll, (&task, &tasks), poll),
        tasks.resolve(task.raw) is Some,
    ensures
        ({
            let object = tasks.objects@[tasks.resolve(task.raw).unwrap()];
            &&& object.coroutine matches Some(c) ==> poll.0 == c
            &&& poll.1.install_current == object.is_kernel
            &&& object.execution_task matches Some(id) ==> poll.1.task == id
            &&& object.execution_task is None ==> poll.1.task == object.task.id
        }),
{
}

/// A task that is freed is gone, with its frame and its handle; what is left to free is its
/// own, and the scheduler's entry of its process goes with the last of its user tasks.
pub proof fn law_freed_task_is_gone(
    task: TaskImpl,
    tasks: &mut SchedTasks,
    last_of_process: Option<usize>,
    freed: Deallocated,
    other: usize,
)
    requires
        call_ensures(TaskImpl::dealloc, (&task, tasks, last_of_process), freed),
        old(tasks).resolve(task.raw) is Some,
        Some(other) != old(tasks).resolve(task.raw),
        old(tasks).objects@[old(tasks).resolve(task.raw).unwrap()].shared_task_key matches Some(
            key,
        ) ==> key.slot < 64,
    ensures
        ({
            let addr = old(tasks).resolve(task.raw).unwrap();
            let object = old(tasks).objects@[addr];
            &&& !final(tasks).objects@.contains_key(addr)
            &&& !final(tasks).frames@.contains_key(object.trap_frame)
            &&& freed.trap_frame == object.trap_frame
            &&& freed.thread_stack == object.thread_stack_ptr
            &&& object.is_kernel ==> freed.process_drop is None
            &&& !object.is_kernel ==> freed.process_drop == last_of_process
            &&& object.shared_task_key matches Some(key) ==> {
                &&& !final(tasks).is_registered(key)
                &&& final(tasks).table.slots@[key.slot as int].state == 0
                &&& final(tasks).table.slots@[key.slot as int].generation != key.generation
            }
        }),
        final(tasks).objects@.contains_key(other) <==> old(tasks).objects@.contains_key(other),
        final(tasks).objects@[other] == old(tasks).objects@[other],
        final(tasks).frame_of(other) == old(tasks).frame_of(other),
{
}

/// A coroutine of the kernel is polled with the interrupt state that it was left with, and can
/// be interrupted from the start.
pub proof fn law_coroutine_keeps_its_interrupt_state(
    inner: usize,
    wrapper: IrqCorotineWrapper,
    left: &mut IrqCorotineWrapper,
    first: usize,
    saved: usize,
    next: usize,
)
    requires
        call_ensures(IrqCorotineWrapper::new, (inner,), wrapper),
        call_ensures(IrqCorotineWrapper::begin_poll, (&wrapper, false), first),
        call_ensures(IrqCorotineWrapper::end_poll, (left, saved), ()),
        call_ensures(IrqCorotineWrapper::begin_poll, (&*final(left), false), next),
    ensures
        wrapper.inner == inner,
        first == 2,
        next == saved,
        final(left).inner == old(left).inner,
{
}

/// A handler that is bound to a user task runs under its identity, and one that is unbound
/// under its own.
pub proof fn law_bound_handler_has_its_owners_identity(
    handler: &mut VschedTaskImpl,
    unbound: &mut VschedTaskImpl,
    addr: usize,
    owner: VschedTaskImpl,
    enter: EnterContext,
    leave: LeaveContext,
    during: u64,
    after: u64,
)
    requires
        call_ensures(VschedTaskImpl::bind_execution_task, (handler, addr, &owner), enter),
        call_ensures(VschedTaskImpl::execution_task, (&*final(handler),), during),
        call_ensures(VschedTaskImpl::unbind_execution_task, (unbound,), leave),
        call_ensures(VschedTaskImpl::execution_task, (&*final(unbound),), after),
    ensures
        during == owner.task.id,
        enter.task == owner.task.id,
        enter.install_current,
        owner.shared_task_key is None ==> final(handler).trap_owner == addr,
        after == old(unbound).task.id,
        final(unbound).trap_owner == 0,
        leave.install == old(unbound).task.id,
        old(unbound).execution_task matches Some(id) ==> leave.leave == id,
        final(unbound).wake_generation != old(unbound).wake_generation,
{
}

/// An interrupt takes the stack of the CPU from a kernel coroutine, which becomes a thread for
/// the time, and from what a scheduler waits in, which does not; from any other task it takes
/// nothing.
pub proof fn law_interrupt_takes_the_stack_of_a_coroutine(
    task: &mut VschedTaskImpl,
    table: &mut SharedTaskTable,
    stack: usize,
    takes: bool,
    taken: bool,
)
    requires
        call_ensures(VschedTaskImpl::takes_current_stack, (&*task,), takes),
        call_ensures(
            VschedTaskImpl::prepare_interrupted_kernel_context,
            (task, table, stack),
            taken,
        ),
    ensures
        takes == (old(task).is_scheduler_wait_context || old(task).is_kernel && old(task).is_coroutine),
        taken == takes,
        taken ==> final(task).thread_stack_ptr == stack,
        taken && !old(task).is_scheduler_wait_context ==> !final(task).is_coroutine && final(task).resume_to_coroutine,
        old(task).is_scheduler_wait_context ==> final(task).is_coroutine == old(task).is_coroutine
            && final(task).resume_to_coroutine == old(task).resume_to_coroutine,
        !taken ==> *final(task) == *old(task),
        final(task).task == old(task).task,
        final(task).trap_frame == old(task).trap_frame,
{
}


/// A task without a handle, and no task, stay as they are when their handle is to be taken.
pub proof fn law_nothing_is_taken_from_a_task_without_a_handle(tasks: &mut SchedTasks, task: usize)
    requires
        call_ensures(unregister_user_task, (tasks, task), ()),
        task == 0 || old(tasks).objects@[task].shared_task_key is None,
    ensures
        final(tasks).objects@ == old(tasks).objects@,
        final(tasks).table.slots@ == old(tasks).table.slots@,
        final(tasks).frames@ == old(tasks).frames@,
{
}

/// A new task object has what it was given, runs under its own identity, and has no handle.
pub proof fn law_new_object_has_what_it_was_given(
    task: AxTask,
    priority: isize,
    pid: usize,
    is_kernel: bool,
    coroutine: Option<Coroutine>,
    made: VschedTaskImpl,
    identity: u64,
    bound: bool,
    kernel: bool,
    id: Option<usize>,
)
    requires
        call_ensures(VschedTaskImpl::new, (task, priority, pid, is_kernel, coroutine), made),
        call_ensures(VschedTaskImpl::execution_task, (&made,), identity),
        call_ensures(VschedTaskImpl::has_execution_task, (&made,), bound),
        call_ensures(VschedTaskImpl::is_kernel, (&made,), kernel),
        call_ensures(VschedTaskImpl::task_id, (&made,), id),
    ensures
        made.task == task,
        made.priority == priority,
        made.pid == pid,
        kernel == is_kernel,
        made.coroutine == coroutine,
        made.is_coroutine <==> coroutine is Some,
        made.wake_generation == 1,
        made.trap_frame == 0,
        made.thread_stack_ptr == 0,
        identity == task.id,
        !bound,
        id is None,
{
}

/// A handle that is given to a task is the task's, and its ID the one that the handle has, until
/// it is taken.
pub proof fn law_task_has_the_handle_it_was_given(
    given: &mut VschedTaskImpl,
    taken: &mut VschedTaskImpl,
    key: UserTaskKey,
    has: Option<UserTaskKey>,
    id: Option<usize>,
    found: Option<UserTaskKey>,
)
    requires
        call_ensures(VschedTaskImpl::install_shared_task_key, (given, key), ()),
        call_ensures(VschedTaskImpl::shared_task_key, (&*final(given),), has),
        call_ensures(VschedTaskImpl::task_id, (&*final(given),), id),
        call_ensures(VschedTaskImpl::take_shared_task_key, (taken,), found),
    ensures
        has == Some(key),
        id is Some <==> key.slot < 64 && 1 <= key.generation <= usize::MAX / 128,
        id matches Some(raw) ==> raw == key.generation * 128 + key.slot * 2 + 1,
        found == old(taken).shared_task_key,
        final(taken).shared_task_key is None,
        final(taken).task == old(taken).task,
        final(given).task == old(given).task,
{
}

/// A task becomes a coroutine or a thread, here and in its slot, and nothing else of it changes.
pub proof fn law_task_becomes_what_it_is_made(
    task: &mut VschedTaskImpl,
    table: &mut SharedTaskTable,
    is_coroutine: bool,
)
    requires
        call_ensures(VschedTaskImpl::set_coroutine, (task, table, is_coroutine), ()),
        old(task).shared_task_key matches Some(key) ==> key.slot < 64,
    ensures
        *final(task) == (VschedTaskImpl { is_coroutine, ..*old(task) }),
        old(task).shared_task_key matches Some(key) ==> final(table).slots@[key.slot as int].context_kind == (if is_coroutine {
            1usize
        } else {
            2usize
        }),
        old(task).shared_task_key is None ==> final(table).slots@ == old(table).slots@,
{
}

/// A poll that ends keeps the value of a coroutine that has finished, and only that; a thread
/// that yields keeps the stack that it was using; what a scheduler waits in is marked; and a
/// kernel thread that ends cannot be woken by what is left.
pub proof fn law_objects_keep_what_they_are_told(
    polled: &mut VschedTaskImpl,
    detached: &mut VschedTaskImpl,
    marked: &mut VschedTaskImpl,
    ended: &mut VschedTaskImpl,
    finished: Option<isize>,
    leave: u64,
    stack: usize,
)
    requires
        call_ensures(VschedTaskImpl::end_poll, (polled, finished), leave),
        call_ensures(VschedTaskImpl::detach_thread_stack_for_resched, (detached, stack), ()),
        call_ensures(VschedTaskImpl::mark_scheduler_wait_context, (marked,), ()),
        call_ensures(VschedTaskImpl::finish_kernel_thread, (ended,), ()),
    ensures
        finished matches Some(value) ==> *final(polled) == (VschedTaskImpl {
            return_value: value,
            ..*old(polled)
        }),
        finished is None ==> *final(polled) == *old(polled),
        old(polled).execution_task matches Some(id) ==> leave == id,
        old(polled).execution_task is None ==> leave == old(polled).task.id,
        *final(detached) == (VschedTaskImpl { thread_stack_ptr: stack, ..*old(detached) }),
        *final(marked) == (VschedTaskImpl { is_scheduler_wait_context: true, ..*old(marked) }),
        final(ended).wake_generation != old(ended).wake_generation,
        final(ended).task == old(ended).task,
{
}

/// Only a kernel coroutine becomes a thread when it is interrupted, on the stack that it was
/// using.
pub proof fn law_only_kernel_coroutines_are_promoted(
    task: &mut VschedTaskImpl,
    table: &mut SharedTaskTable,
    stack: usize,
    promoted: bool,
)
    requires
        call_ensures(
            VschedTaskImpl::promote_interrupted_kernel_coroutine,
            (task, table, stack),
            promoted,
        ),
    ensures
        promoted <==> old(task).is_kernel && old(task).is_coroutine,
        promoted ==> *final(task) == (VschedTaskImpl {
            thread_stack_ptr: stack,
            resume_to_coroutine: true,
            is_coroutine: false,
            ..*old(task)
        }),
        !promoted ==> *final(task) == *old(task) && final(table).slots@ == old(table).slots@,
        old(task).shared_task_key is None ==> final(table).slots@ == old(table).slots@,
        promoted ==> (old(task).shared_task_key matches Some(key) ==> key.slot < 64 ==> final(table).slots@[key.slot as int].context_kind == 2),
{
}

/// A thread of the kernel that has a stack starts from the frame that is made for it, which is
/// the only one that is made; every other new task has none.
pub proof fn law_new_task_starts_from_its_frame(
    tasks: &mut SchedTasks,
    place: TaskPlacement,
    task: AxTask,
    priority: isize,
    pid: usize,
    is_kernel: bool,
    coroutine: Option<usize>,
    vdso_base: usize,
    addr: usize,
    first: Option<UserTrapFrame>,
)
    requires
        call_ensures(
            register_task,
            (tasks, place, task, priority, pid, is_kernel, coroutine, vdso_base),
            addr,
        ),
        call_ensures(
            initial_kernel_thread_frame,
            (place.start.stack_top, place.start.kernel_gp, place.start.entry),
            first,
        ),
        place.frame != 0,
    ensures
        is_kernel && coroutine is None && first is Some ==> {
            &&& final(tasks).objects@[addr].trap_frame == place.frame
            &&& final(tasks).frames@.contains_key(place.frame)
            &&& Some(final(tasks).frames@[place.frame]) == first
        },
        !(is_kernel && coroutine is None && first is Some) ==> {
            &&& final(tasks).objects@[addr].trap_frame == 0
            &&& final(tasks).frames@ == old(tasks).frames@
        },
{
}

/// A system begins without tasks.
pub proof fn law_there_are_no_tasks_at_first(tasks: SchedTasks, addr: usize, key: UserTaskKey)
    requires
        call_ensures(SchedTasks::new, (), tasks),
    ensures
        !tasks.objects@.contains_key(addr),
        !tasks.frames@.contains_key(addr),
        !tasks.is_registered(key),
        key.slot < 64 ==> tasks.table.slots@[key.slot as int].state == 0
            && tasks.table.slots@[key.slot as int].generation == 0,
{
}


/// What is at an address is found there, and what is registered under a handle, while that is
/// live; nothing is at 0, or under a handle that is not registered.
pub proof fn law_objects_are_found_where_they_are(
    tasks: SchedTasks,
    raw: usize,
    key: UserTaskKey,
    direct: Option<&VschedTaskImpl>,
    of_key: Option<&VschedTaskImpl>,
)
    requires
        call_ensures(with_direct_task, (&tasks, raw), direct),
        call_ensures(with_registered_user_task, (&tasks, key), of_key),
    ensures
        raw == 0 ==> direct is None,
        raw != 0 ==> direct == Some(&tasks.objects@[raw]),
        of_key is Some <==> tasks.is_registered(key) && key.slot < 64
            && tasks.table.slots@[key.slot as int].generation == key.generation
            && tasks.table.slots@[key.slot as int].state == 2,
        of_key matches Some(object) ==> *object == tasks.objects@[tasks.object_of(key)],
{
}

/// A task object that is freed is gone, with its frame and its handle, and only it; what it held
/// is handed back, and its process let go of only if the task was not the kernel's.
pub proof fn law_freed_object_is_gone(
    tasks: &mut SchedTasks,
    addr: usize,
    unregister: bool,
    last_of_process: Option<usize>,
    freed: Deallocated,
    other: usize,
)
    requires
        call_ensures(dealloc_task, (tasks, addr, unregister, last_of_process), freed),
        other != addr,
    ensures
        !final(tasks).objects@.contains_key(addr),
        final(tasks).objects@.contains_key(other) == old(tasks).objects@.contains_key(other),
        old(tasks).objects@.contains_key(other) ==> final(tasks).objects@[other] == old(tasks).objects@[other],
        ({
            let object = old(tasks).objects@[addr];
            &&& freed.trap_frame == object.trap_frame
            &&& freed.thread_stack == object.thread_stack_ptr
            &&& freed.process_drop == (if object.is_kernel {
                None
            } else {
                last_of_process
            })
            &&& !final(tasks).frames@.contains_key(object.trap_frame)
            &&& object.shared_task_key matches Some(key) ==> !final(tasks).is_registered(key)
        }),
{
}

/// A task object answers from its slot while that is live, and from itself otherwise.
pub proof fn law_object_answers_from_its_slot(
    task: VschedTaskImpl,
    table: SharedTaskTable,
    state: TaskState,
    priority: isize,
    coroutine: bool,
    pid: usize,
    stack: usize,
    inner: &AxTask,
)
    requires
        call_ensures(VschedTaskImpl::state, (&task, &table), state),
        call_ensures(VschedTaskImpl::priority, (&task, &table), priority),
        call_ensures(VschedTaskImpl::is_coroutine, (&task, &table), coroutine),
        call_ensures(VschedTaskImpl::pid, (&task, &table), pid),
        call_ensures(VschedTaskImpl::thread_stack, (&task,), stack),
        call_ensures(VschedTaskImpl::inner, (&task,), inner),
    ensures
        stack == task.thread_stack_ptr,
        *inner == task.task,
        (task.shared_task_key matches Some(key) ==> !(key.slot < 64
            && table.slots@[key.slot as int].generation == key.generation
            && table.slots@[key.slot as int].state == 2)) ==> same_state(state, task.task.state)
            && priority == task.priority && coroutine == task.is_coroutine && pid == task.pid,
        task.shared_task_key matches Some(key) ==> key.slot < 64
            && table.slots@[key.slot as int].generation == key.generation
            && table.slots@[key.slot as int].state == 2 ==> {
            let slot = table.slots@[key.slot as int];
            &&& slot.task_state <= 4 ==> state_number(state) == slot.task_state
            &&& priority == slot.priority
            &&& coroutine == (slot.context_kind == 1)
            &&& pid == (if slot.process_id == 0 || slot.process_id == usize::MAX {
                task.pid
            } else {
                slot.process_id
            })
        },
{
}

/// The number that a state has in a slot.
pub open spec fn state_number(state: TaskState) -> int {
    match state {
        TaskState::Ready => 0,
        TaskState::Running => 1,
        TaskState::Blocked => 2,
        TaskState::Exited => 3,
        TaskState::Blocking => 4,
    }
}

/// A task object is in the state that it was put into, here and in its slot.
pub proof fn law_object_is_in_the_state_it_was_put_into(
    task: &mut VschedTaskImpl,
    table: &mut SharedTaskTable,
    state: TaskState,
    previous: TaskState,
)
    requires
        call_ensures(VschedTaskImpl::set_state, (task, table, state), previous),
        old(task).shared_task_key matches Some(key) ==> key.slot < 64 && old(table).slots@[key.slot as int].generation == key.generation && old(table).slots@[key.slot as int].state == 2 && old(table).slots@[key.slot as int].task_state <= 4,
    ensures
        same_state(state, final(task).task.state),
        *final(task) == (VschedTaskImpl {
            task: AxTask { state: final(task).task.state, ..old(task).task },
            ..*old(task)
        }),
        old(task).shared_task_key is None ==> same_state(previous, old(task).task.state) && final(table).slots@ == old(table).slots@,
        old(task).shared_task_key matches Some(key) ==> {
            let before = old(table).slots@[key.slot as int];
            &&& state_number(previous) == before.task_state
            &&& final(table).slots@[key.slot as int].task_state == state_number(state)
            &&& final(table).slots@[key.slot as int].priority == before.priority
        },
{
}

/// A task object goes from the state that it is in to the one that is given for it.
pub proof fn law_object_goes_by_its_state(
    task: &mut VschedTaskImpl,
    table: &mut SharedTaskTable,
    ready: TaskState,
    running: TaskState,
    blocked: TaskState,
    exited: TaskState,
    blocking: TaskState,
    previous: TaskState,
)
    requires
        call_ensures(
            VschedTaskImpl::match_set_state,
            (task, table, ready, running, blocked, exited, blocking),
            previous,
        ),
        old(task).shared_task_key matches Some(key) ==> key.slot < 64 && old(table).slots@[key.slot as int].generation == key.generation && old(table).slots@[key.slot as int].state == 2 && old(table).slots@[key.slot as int].task_state <= 4,
    ensures
        old(task).shared_task_key is None ==> same_state(previous, old(task).task.state),
        old(task).shared_task_key matches Some(key) ==> state_number(previous) == old(table).slots@[key.slot as int].task_state,
        ({
            let next = match previous {
                TaskState::Ready => ready,
                TaskState::Running => running,
                TaskState::Blocked => blocked,
                TaskState::Exited => exited,
                TaskState::Blocking => blocking,
            };
            &&& same_state(next, final(task).task.state)
            &&& old(task).shared_task_key matches Some(key) ==> final(table).slots@[key.slot as int].task_state == state_number(next)
        }),
        final(task).task.id == old(task).task.id,
        final(task).shared_task_key == old(task).shared_task_key,
{
}

/// A task object is moved to another process here and in its slot; it is entered under the
/// identity that it runs under, and its registers are those of its frame.
pub proof fn law_object_is_run_as_what_it_is(
    moved: &mut VschedTaskImpl,
    table: &mut SharedTaskTable,
    pid: usize,
    task: VschedTaskImpl,
    install: bool,
    enter: EnterContext,
    leave: u64,
    poll: (Coroutine, EnterContext),
    returned: &mut VschedTaskImpl,
    value: isize,
)
    requires
        call_ensures(VschedTaskImpl::set_pid, (moved, table, pid), ()),
        call_ensures(VschedTaskImpl::enter_execution_context, (&task, install), enter),
        call_ensures(VschedTaskImpl::leave_execution_context, (&task,), leave),
        call_ensures(VschedTaskImpl::begin_poll, (&task,), poll),
        call_ensures(VschedTaskImpl::set_return_value, (returned, value), ()),
        old(moved).shared_task_key matches Some(key) ==> key.slot < 64,
    ensures
        *final(moved) == (VschedTaskImpl { pid, ..*old(moved) }),
        old(moved).shared_task_key matches Some(key) ==> final(table).slots@[key.slot as int].process_id == pid,
        old(moved).shared_task_key is None ==> final(table).slots@ == old(table).slots@,
        ({
            let identity = match task.execution_task {
                Some(id) => id,
                None => task.task.id,
            };
            &&& enter.task == identity
            &&& enter.install_current == install
            &&& leave == identity
            &&& poll.1.task == identity
            &&& poll.1.install_current == task.is_kernel
        }),
        task.coroutine is Some ==> Some(poll.0) == task.coroutine,
        *final(returned) == (VschedTaskImpl { return_value: value, ..*old(returned) }),
{
}

/// The registers of a task object are restored from its frame; a coroutine that an interrupt
/// made a thread of is a coroutine again.
pub proof fn law_object_is_restored_from_its_frame(
    task: &mut VschedTaskImpl,
    table: &mut SharedTaskTable,
    frames: BTreeMap<usize, UserTrapFrame>,
    restore: RestoreContext,
)
    requires
        call_ensures(VschedTaskImpl::restore_context, (task, table, &frames), restore),
        old(task).shared_task_key matches Some(key) ==> key.slot < 64,
    ensures
        restore.frame == frames@[old(task).trap_frame],
        restore.sret == old(task).resume_to_coroutine,
        restore.enter.install_current == old(task).is_kernel,
        restore.enter.task == (match old(task).execution_task {
            Some(id) => id,
            None => old(task).task.id,
        }),
        !old(task).resume_to_coroutine ==> *final(task) == *old(task) && final(table).slots@ == old(table).slots@,
        old(task).shared_task_key is None ==> final(table).slots@ == old(table).slots@,
        old(task).resume_to_coroutine ==> *final(task) == (VschedTaskImpl {
            resume_to_coroutine: false,
            thread_stack_ptr: 0,
            is_coroutine: true,
            ..*old(task)
        }) && (old(task).shared_task_key matches Some(key) ==> final(table).slots@[key.slot as int].context_kind == 1),
{
}

} // verus!
