//! What an operation on one task leaves alone: the other tasks, their slots, their frames, and
//! who is registered.

use vstd::prelude::*;

use crate::abi::task::UserTaskKey;
use crate::sched::dispatch::TaskImpl;
use crate::sched::init_task::{create_vsched_init_task, InitTaskParts};
use crate::sched::kernel::{
    exit_current_kernel_thread, register_kernel_thread, set_external_task_priority,
    set_vsched_task_exited, transition_block_on_task, wake_blocked_task, KernelState,
    PendingKernelThread, WakeOutcome,
};
use crate::sched::registry::{register_task, SchedTasks, TaskPlacement};
use crate::sched::task::{AxTask, RestoreContext, VschedTaskImpl};
use crate::sched::trap::{
    hand_over_stack, toggle_handler, vsched2_trap_entry, vsched_yield_entry, TrapDispatch, TrapDone,
    TrapEntry, VschedTrapInfoImpl,
};
use crate::sched::trapframe::UserTrapFrame;
use crate::state::TaskState;
use crate::syscall::context::UserContext;
use crate::syscall::trap::write_back;

verus! {

/// Whether the same handles are registered, for the same objects.
pub open spec fn handles_kept(before: SchedTasks, after: SchedTasks) -> bool {
    forall|k: UserTaskKey| #[trigger]
        after.is_registered(k) == before.is_registered(k) && (before.is_registered(k)
            ==> after.object_of(k) == before.object_of(k))
}

/// Whether every object but the one at `addr` is where and what it was.
pub open spec fn objects_kept(before: SchedTasks, after: SchedTasks, addr: usize) -> bool {
    forall|a: usize|
        a != addr ==> #[trigger] after.objects@.contains_key(a) == before.objects@.contains_key(a)
            && (before.objects@.contains_key(a) ==> after.objects@[a] == before.objects@[a])
}

/// Whether every slot but that of the object at `addr` is what it was.
pub open spec fn slots_kept(before: SchedTasks, after: SchedTasks, addr: usize) -> bool {
    forall|i: int|
        0 <= i < 64 && !(before.objects@[addr].shared_task_key matches Some(key) && key.slot == i)
            ==> #[trigger] after.table.slots@[i] == before.table.slots@[i]
}

/// Whether every frame but the one at `at` is what it was.
pub open spec fn frames_kept(before: SchedTasks, after: SchedTasks, at: usize) -> bool {
    forall|f: usize|
        f != at ==> #[trigger] after.frames@.contains_key(f) == before.frames@.contains_key(f) && (
        before.frames@.contains_key(f) ==> after.frames@[f] == before.frames@[f])
}

/// Whether nothing but the object at `addr` and its slot may have changed.
pub open spec fn others_kept(before: SchedTasks, after: SchedTasks, addr: usize) -> bool {
    &&& handles_kept(before, after)
    &&& objects_kept(before, after, addr)
    &&& slots_kept(before, after, addr)
    &&& after.frames@ == before.frames@
}

/// Whether nothing has changed.
pub open spec fn all_kept(before: SchedTasks, after: SchedTasks) -> bool {
    &&& handles_kept(before, after)
    &&& after.objects@ == before.objects@
    &&& after.table.slots@ == before.table.slots@
    &&& after.frames@ == before.frames@
}

/// Whether the task that a name stands for, if there is one, has a slot of the table or none.
pub open spec fn slot_is_of_the_table(tasks: SchedTasks, raw: usize) -> bool {
    tasks.resolve(raw) matches Some(addr) ==> (
    tasks.objects@[addr].shared_task_key matches Some(key) ==> key.slot < 64)
}

/// Whether two objects are the same but for the scheduling state.
pub open spec fn same_but_state(a: VschedTaskImpl, b: VschedTaskImpl) -> bool {
    a == (VschedTaskImpl { task: AxTask { state: a.task.state, ..b.task }, ..b })
}

/// A change of one task's state is one of that task's state only.
pub proof fn law_state_of_one_task_changes(
    task: TaskImpl,
    put: &mut SchedTasks,
    state: TaskState,
    previous: TaskState,
    gone: &mut SchedTasks,
    ready: TaskState,
    running: TaskState,
    blocked: TaskState,
    exited: TaskState,
    blocking: TaskState,
    was: TaskState,
)
    requires
        call_ensures(TaskImpl::set_state, (&task, put, state), previous),
        call_ensures(
            TaskImpl::match_set_state,
            (&task, gone, ready, running, blocked, exited, blocking),
            was,
        ),
        old(put).resolve(task.raw) is Some,
        old(gone).resolve(task.raw) is Some,
        slot_is_of_the_table(*old(put), task.raw),
        slot_is_of_the_table(*old(gone), task.raw),
    ensures
        ({
            let addr = old(put).resolve(task.raw).unwrap();
            &&& others_kept(*old(put), *final(put), addr)
            &&& same_but_state(final(put).objects@[addr], old(put).objects@[addr])
        }),
        ({
            let addr = old(gone).resolve(task.raw).unwrap();
            &&& others_kept(*old(gone), *final(gone), addr)
            &&& same_but_state(final(gone).objects@[addr], old(gone).objects@[addr])
        }),
{
}

/// What the scheduler does to one task it does to no other.
pub proof fn law_scheduler_changes_one_task(
    task: TaskImpl,
    moved: &mut SchedTasks,
    pid: usize,
    returned: &mut SchedTasks,
    value: isize,
    restored: &mut SchedTasks,
    restore: RestoreContext,
)
    requires
        call_ensures(TaskImpl::set_pid, (&task, moved, pid), ()),
        call_ensures(TaskImpl::set_return_value, (&task, returned, value), ()),
        call_ensures(TaskImpl::restore_context, (&task, restored), restore),
        old(moved).resolve(task.raw) is Some,
        old(returned).resolve(task.raw) is Some,
        old(restored).resolve(task.raw) is Some,
        slot_is_of_the_table(*old(moved), task.raw),
        slot_is_of_the_table(*old(restored), task.raw),
    ensures
        others_kept(*old(moved), *final(moved), old(moved).resolve(task.raw).unwrap()),
        others_kept(*old(returned), *final(returned), old(returned).resolve(task.raw).unwrap()),
        others_kept(*old(restored), *final(restored), old(restored).resolve(task.raw).unwrap()),
{
}

/// A task that begins to wait, or does not after all, and one that is woken, change nothing but
/// their state; where nobody is meant nothing changes.
pub proof fn law_waiting_changes_one_task(
    waiting: &mut SchedTasks,
    current: usize,
    blocking: bool,
    done: bool,
    woken: &mut SchedTasks,
    task: usize,
    generation: usize,
    outcome: WakeOutcome,
)
    requires
        call_ensures(transition_block_on_task, (waiting, current, blocking), done),
        call_ensures(wake_blocked_task, (woken, task, generation), outcome),
        slot_is_of_the_table(*old(waiting), current),
        slot_is_of_the_table(*old(woken), task),
    ensures
        old(waiting).resolve(current) is None ==> all_kept(*old(waiting), *final(waiting)),
        old(waiting).resolve(current) matches Some(addr) ==> others_kept(
            *old(waiting),
            *final(waiting),
            addr,
        ) && same_but_state(final(waiting).objects@[addr], old(waiting).objects@[addr]),
        old(woken).resolve(task) is None ==> all_kept(*old(woken), *final(woken)),
        old(woken).resolve(task) matches Some(addr) ==> {
            &&& old(woken).objects@[addr].wake_generation != generation ==> all_kept(
                *old(woken),
                *final(woken),
            )
            &&& others_kept(*old(woken), *final(woken), addr)
            &&& same_but_state(final(woken).objects@[addr], old(woken).objects@[addr])
        },
{
}

/// A task that ends cannot be woken by what was left of it, and nothing else changes but, for
/// the scheduler, its state.
pub proof fn law_end_changes_one_task(
    ended: &mut SchedTasks,
    current: usize,
    ended_task: AxTask,
    state: &mut KernelState,
    exited: &mut SchedTasks,
    task: usize,
    off: bool,
)
    requires
        call_ensures(exit_current_kernel_thread, (ended, current), ended_task),
        call_ensures(set_vsched_task_exited, (state, exited, task), off),
        old(ended).resolve(current) is Some,
        old(exited).resolve(task) is Some,
        slot_is_of_the_table(*old(exited), task),
    ensures
        ({
            let addr = old(ended).resolve(current).unwrap();
            let before = old(ended).objects@[addr];
            let after = final(ended).objects@[addr];
            &&& others_kept(*old(ended), *final(ended), addr)
            &&& final(ended).table.slots@ == old(ended).table.slots@
            &&& after.wake_generation != before.wake_generation
            &&& after == (VschedTaskImpl { wake_generation: after.wake_generation, ..before })
        }),
        ({
            let addr = old(exited).resolve(task).unwrap();
            let before = old(exited).objects@[addr];
            let after = final(exited).objects@[addr];
            &&& others_kept(*old(exited), *final(exited), addr)
            &&& after.wake_generation != before.wake_generation
            &&& same_but_state(
                after,
                VschedTaskImpl { wake_generation: after.wake_generation, ..before },
            )
        }),
        final(state).interfaces_ready == old(state).interfaces_ready,
        final(state).prepared == old(state).prepared,
        final(state).scheduler_ready == old(state).scheduler_ready,
        final(state).placement == old(state).placement,
        final(state).pending@ == old(state).pending@,
        final(state).trapped@ == old(state).trapped@,
{
}

/// A priority that is not taken changes nothing, and one that is taken nothing else.
pub proof fn law_priority_of_one_task_changes(
    tasks: &mut SchedTasks,
    current: usize,
    priority: isize,
    ok: bool,
)
    requires
        call_ensures(set_external_task_priority, (tasks, current, priority), ok),
    ensures
        !ok ==> all_kept(*old(tasks), *final(tasks)),
        ok ==> {
            let addr = old(tasks).resolve(current).unwrap();
            &&& others_kept(*old(tasks), *final(tasks), addr)
            &&& final(tasks).table.slots@ == old(tasks).table.slots@
            &&& final(tasks).objects@[addr] == (VschedTaskImpl {
                priority,
                ..old(tasks).objects@[addr]
            })
        },
{
}

/// The handling of a trap changes its handler only, and nothing if it is for no user task.
pub proof fn law_handling_changes_the_handler(
    info: VschedTrapInfoImpl,
    begun: &mut SchedTasks,
    dispatcher: usize,
    task: Option<usize>,
    handler: usize,
    cpu: usize,
    dispatch: Option<TrapDispatch>,
    ended: &mut SchedTasks,
    handled: TrapDispatch,
    irq_state: usize,
    done: TrapDone,
)
    requires
        call_ensures(
            VschedTrapInfoImpl::begin_handle,
            (&info, begun, dispatcher, task, handler, cpu),
            dispatch,
        ),
        call_ensures(VschedTrapInfoImpl::end_handle, (&info, ended, handled, handler, irq_state), done),
    ensures
        dispatch is None ==> all_kept(*old(begun), *final(begun)),
        dispatch matches Some(d) ==> {
            &&& d.trapped == task
            &&& d.owner is None ==> all_kept(*old(begun), *final(begun)) && d.enter is None
            &&& d.owner is Some ==> {
                let before = old(begun).objects@[handler];
                let after = final(begun).objects@[handler];
                &&& others_kept(*old(begun), *final(begun), handler)
                &&& after == (VschedTaskImpl {
                    execution_task: after.execution_task,
                    trap_owner: after.trap_owner,
                    ..before
                })
            }
        },
        handled.owner is None ==> all_kept(*old(ended), *final(ended)) && done.leave is None,
        handled.owner is Some ==> {
            let before = old(ended).objects@[handler];
            let after = final(ended).objects@[handler];
            &&& others_kept(*old(ended), *final(ended), handler)
            &&& after.wake_generation != before.wake_generation
            &&& after == (VschedTaskImpl {
                wake_generation: after.wake_generation,
                trap_owner: 0,
                execution_task: None,
                ..before
            })
        },
{
}

/// A handler that becomes the other kind, and a task that is handed its stack, are the only
/// ones that change.
pub proof fn law_stack_is_handed_to_one_task(
    toggled: &mut SchedTasks,
    current: usize,
    promote: bool,
    did: bool,
    handed: &mut SchedTasks,
    task: usize,
    stack: usize,
)
    requires
        call_ensures(toggle_handler, (toggled, current, promote), did),
        call_ensures(hand_over_stack, (handed, task, stack), ()),
        old(handed).resolve(task) is Some,
    ensures
        !did ==> all_kept(*old(toggled), *final(toggled)),
        did ==> {
            let addr = old(toggled).resolve(current).unwrap();
            &&& others_kept(*old(toggled), *final(toggled), addr)
            &&& final(toggled).table.slots@ == old(toggled).table.slots@
        },
        ({
            let addr = old(handed).resolve(task).unwrap();
            let before = old(handed).objects@[addr];
            let after = final(handed).objects@[addr];
            &&& others_kept(*old(handed), *final(handed), addr)
            &&& final(handed).table.slots@ == old(handed).table.slots@
            &&& after.thread_stack_ptr == stack
            &&& after == (VschedTaskImpl {
                thread_stack_ptr: stack,
                resume_to_coroutine: after.resume_to_coroutine,
                is_coroutine: after.is_coroutine,
                ..before
            })
        }),
{
}

/// Registers are kept in the frame of one task, and nothing else is written; without a task
/// nothing is.
pub proof fn law_registers_are_kept_in_one_frame(
    trapped: &mut SchedTasks,
    yielded: &mut SchedTasks,
    written: &mut SchedTasks,
    frame: UserTrapFrame,
    fresh: usize,
    task: usize,
    current: usize,
    stack: usize,
    context: UserContext,
    entry: TrapEntry,
)
    requires
        call_ensures(vsched2_trap_entry, (trapped, frame, fresh, task, current), entry),
        call_ensures(vsched_yield_entry, (yielded, frame, fresh, current, stack), ()),
        call_ensures(write_back, (written, task, &context), ()),
        old(written).resolve(task) is Some,
    ensures
        handles_kept(*old(trapped), *final(trapped)),
        final(trapped).table.slots@ == old(trapped).table.slots@,
        old(trapped).resolve(entry.task) is None ==> all_kept(*old(trapped), *final(trapped)),
        old(trapped).resolve(entry.task) matches Some(addr) ==> {
            &&& objects_kept(*old(trapped), *final(trapped), addr)
            &&& frames_kept(*old(trapped), *final(trapped), entry.frame)
            &&& final(trapped).objects@[addr] == (VschedTaskImpl {
                trap_frame: entry.frame,
                ..old(trapped).objects@[addr]
            })
        },
        handles_kept(*old(yielded), *final(yielded)),
        final(yielded).table.slots@ == old(yielded).table.slots@,
        old(yielded).resolve(current) is None ==> all_kept(*old(yielded), *final(yielded)),
        old(yielded).resolve(current) matches Some(addr) ==> {
            let before = old(yielded).objects@[addr];
            let after = final(yielded).objects@[addr];
            &&& objects_kept(*old(yielded), *final(yielded), addr)
            &&& frames_kept(*old(yielded), *final(yielded), after.trap_frame)
            &&& after == (VschedTaskImpl {
                trap_frame: after.trap_frame,
                thread_stack_ptr: after.thread_stack_ptr,
                ..before
            })
        },
        handles_kept(*old(written), *final(written)),
        final(written).table.slots@ == old(written).table.slots@,
        final(written).objects@ == old(written).objects@,
        frames_kept(
            *old(written),
            *final(written),
            old(written).objects@[old(written).resolve(task).unwrap()].trap_frame,
        ),
{
}

/// A task that is made is one more, with at most its own frame, and is in no slot yet.
pub proof fn law_new_task_is_one_more(
    made: &mut SchedTasks,
    thread: &mut SchedTasks,
    first: &mut SchedTasks,
    handler: &mut SchedTasks,
    place: TaskPlacement,
    task: AxTask,
    priority: isize,
    pid: usize,
    is_kernel: bool,
    coroutine: Option<usize>,
    vdso_base: usize,
    pending: PendingKernelThread,
    parts: InitTaskParts,
    id: u64,
    inner: usize,
    made_at: usize,
    thread_at: usize,
    first_at: usize,
    handler_at: usize,
)
    requires
        call_ensures(
            register_task,
            (made, place, task, priority, pid, is_kernel, coroutine, vdso_base),
            made_at,
        ),
        call_ensures(register_kernel_thread, (thread, place, pending), thread_at),
        call_ensures(create_vsched_init_task, (first, place, task, parts), first_at),
        call_ensures(VschedTrapInfoImpl::new_handler, (handler, place, id, inner), handler_at),
    ensures
        made_at == place.addr && thread_at == place.addr && first_at == place.addr && handler_at
            == place.addr,
        objects_kept(*old(made), *final(made), place.addr),
        handles_kept(*old(made), *final(made)),
        final(made).table.slots@ == old(made).table.slots@,
        frames_kept(*old(made), *final(made), place.frame),
        !(is_kernel && coroutine is None) ==> final(made).frames@ == old(made).frames@,
        objects_kept(*old(thread), *final(thread), place.addr),
        handles_kept(*old(thread), *final(thread)),
        final(thread).table.slots@ == old(thread).table.slots@,
        frames_kept(*old(thread), *final(thread), place.frame),
        objects_kept(*old(first), *final(first), place.addr),
        handles_kept(*old(first), *final(first)),
        final(first).table.slots@ == old(first).table.slots@,
        frames_kept(*old(first), *final(first), parts.frame),
        objects_kept(*old(handler), *final(handler), place.addr),
        handles_kept(*old(handler), *final(handler)),
        final(handler).table.slots@ == old(handler).table.slots@,
        final(handler).frames@ == old(handler).frames@,
{
}

} // verus!
