//! Starting the scheduler, and what it takes over from the kernel.

use vstd::prelude::*;

use crate::asynctask::current::CurrentTask;
use crate::axtask::api::{
    active_cpu_num, begin_with_current_task, block_on_current_task, current, current_may_uninit,
    end_with_current_task, exit, init_scheduler_with_cpu_num,
    install_current_task_for_external_scheduler, on_timer_tick, register_block_on_hooks,
    register_block_on_toggle, register_external_scheduler_hooks, register_vsched2_yield,
    run_task_entry_for_external_scheduler, set_current_affinity, set_priority, spawn_task,
    transition_block_on_task, vsched2_active, wake_block_on_task, yield_now, AffinityAction,
    AxCpuMask, CurrentSlot, ExitCall, ExternalHooks, PriorityCall, SchedulerHooks, SpawnCall,
    StateCall, TaskRef, TimerTick, WakeCall, YieldAction,
};
use crate::laws::blocking::state_at;
use crate::sched::kernel::{
    apply_to_hooks, clear_trapped_vsched_task, enable_kernel_thread_registration,
    enqueue_kernel_thread, exit_current_kernel_thread, external_spawn_kernel_thread,
    init_vsched2_interfaces, prepare_vsched2, record_init_task, register_kernel_thread,
    reject_external_task_affinity, set_external_task_priority, set_trapped_vsched_task,
    set_vsched_task_exited, spawn_kernel_thread, trapped_vsched_task, vsched2_bootstrap,
    BootstrapAction, HookAddresses, KernelState, PendingKernelThread, SpawnAction,
};
use crate::sched::registry::{SchedTasks, TaskPlacement};
use crate::sched::task::{AxTask, VschedTaskImpl};
use crate::state::AxTaskState;
use crate::vdso::placement::VdsoPlacement;

verus! {

/// The scheduler is made active without interrupts, its hooks before the function that says
/// that it is active; then what runs becomes its main task, and kernel threads are let in. Last
/// its trap vector is activated, the boot task blocks, and the scheduler is entered.
pub proof fn law_start_begins_and_ends_so(
    init_task: Option<usize>,
    vspace: Option<usize>,
    root: usize,
    kernel_root: usize,
    actions: Vec<BootstrapAction>,
)
    requires
        call_ensures(vsched2_bootstrap, (init_task, vspace, root, kernel_root), actions),
    ensures
        ({
            let a = actions@;
            let n = a.len() as int;
            &&& n >= 12
            &&& a[0] is DisableIrqs
            &&& a[1] is InitInterfaces
            &&& a[2] is RegisterToggle
            &&& a[3] is RegisterBlockOnHooks
            &&& a[4] is RegisterYield
            &&& a[5] is InitRunQueueEmpty
            &&& a[6] is RegisterMainTask
            &&& a[7] is KernelInitMain
            &&& a[8] is EnableKernelThreads
            &&& a[n - 3] is ActivateTrapVector
            &&& a[n - 2] is BlockBootTask
            &&& a[n - 1] is EnterScheduler
            &&& init_task is None && vspace is None ==> n == 12
            &&& init_task is None && (vspace matches Some(v) && v != 0) ==> n == 13 && a[9]
                == BootstrapAction::CopyKernelMappings { vspace: vspace.unwrap() }
            &&& init_task is None && vspace == Some(0usize) ==> n == 12
            &&& init_task matches Some(task) ==> a[9] == BootstrapAction::RecordInitTask { task }
            &&& init_task is Some && vspace is None ==> n == 13
        }),
{
}

/// The first user task is made known to the scheduler of its process, in its address space,
/// whose page table is in use meanwhile if it has one of its own; the one that was in use comes
/// back right after.
pub proof fn law_first_process_is_set_up_in_its_space(
    task: usize,
    vspace: usize,
    root: usize,
    kernel_root: usize,
    actions: Vec<BootstrapAction>,
)
    requires
        call_ensures(
            vsched2_bootstrap,
            (Some(task), Some(vspace), root, kernel_root),
            actions,
        ),
    ensures
        ({
            let a = actions@;
            let own = vspace != 0;
            let switch = own && root != 0 && root != kernel_root;
            let p = 10 + (if own {
                1int
            } else {
                0
            }) + (if switch {
                1int
            } else {
                0
            });
            &&& a[9] == BootstrapAction::RecordInitTask { task }
            &&& own ==> a[10] == BootstrapAction::CopyKernelMappings { vspace }
            &&& switch ==> a[11] == BootstrapAction::SwitchPageTable { root }
            &&& a[p] == BootstrapAction::ProcessInit { vspace }
            &&& a[p + 1] == BootstrapAction::UserInit { vspace }
            &&& a[p + 2] == BootstrapAction::BindInitProcess { task }
            &&& a[p + 3] == BootstrapAction::RegisterInitTask { task }
            &&& a[p + 4] == BootstrapAction::PushInitTask { task }
            &&& a[p + 5] == BootstrapAction::RestorePageTable { root: kernel_root }
            &&& own ==> a[p + 6] == BootstrapAction::CopyKernelMappings { vspace }
            &&& a.len() == p + 9 + (if own {
                1int
            } else {
                0
            })
        }),
{
}

/// The interfaces are given to the scheduler once, with the place of its shared object.
pub proof fn law_interfaces_are_given_once(
    state: &mut KernelState,
    placement: VdsoPlacement,
    first: bool,
)
    requires
        call_ensures(init_vsched2_interfaces, (state, placement), first),
    ensures
        first <==> !old(state).interfaces_ready,
        final(state).interfaces_ready,
        first ==> final(state).placement == placement,
        !first ==> final(state).placement == old(state).placement,
        final(state).init_task == old(state).init_task,
        final(state).pending@ == old(state).pending@,
{
}

/// The external scheduler is selected once, with its functions.
pub proof fn law_scheduler_is_selected_once(
    state: &mut KernelState,
    hooks: &mut SchedulerHooks,
    external: ExternalHooks,
)
    requires
        call_ensures(prepare_vsched2, (state, hooks, external), ()),
    ensures
        final(state).prepared,
        !old(state).prepared ==> final(hooks).external == external,
        old(state).prepared ==> final(hooks).external == old(hooks).external,
        final(hooks).vsched2_yield == old(hooks).vsched2_yield,
        final(state).pending@ == old(state).pending@,
{
}

/// A kernel thread is given to the scheduler at once if that takes threads, and waits behind
/// the others otherwise; one of the task API has the priority 1.
pub proof fn law_threads_wait_for_the_scheduler(
    state: &mut KernelState,
    other: &mut KernelState,
    task: AxTask,
    priority: isize,
    now: Option<PendingKernelThread>,
    external: Option<PendingKernelThread>,
)
    requires
        call_ensures(enqueue_kernel_thread, (state, task, priority), now),
        call_ensures(external_spawn_kernel_thread, (other, task), external),
    ensures
        old(state).scheduler_ready ==> now == Some(PendingKernelThread { task, priority }) && final(state).pending@ == old(state).pending@,
        !old(state).scheduler_ready ==> now is None && final(state).pending@ == old(state).pending@.push(PendingKernelThread { task, priority }),
        old(other).scheduler_ready ==> external == Some(PendingKernelThread { task, priority: 1 }),
        !old(other).scheduler_ready ==> external is None && final(other).pending@ == old(other).pending@.push(PendingKernelThread { task, priority: 1 }),
{
}

/// The threads that waited are given to the scheduler, all of them and in order, and from then
/// on none waits.
pub proof fn law_waiting_threads_are_given(
    state: &mut KernelState,
    waiting: Vec<PendingKernelThread>,
)
    requires
        call_ensures(enable_kernel_thread_registration, (state,), waiting),
    ensures
        waiting@ == old(state).pending@,
        final(state).pending@.len() == 0,
        final(state).scheduler_ready,
        final(state).init_task == old(state).init_task,
        final(state).prepared == old(state).prepared,
{
}

/// A new kernel thread goes to the kernel's own queue until the external scheduler is selected,
/// waits until that takes threads, and is registered then.
pub proof fn law_new_thread_goes_to_its_scheduler(
    state: &mut KernelState,
    task: AxTask,
    priority: isize,
    action: SpawnAction,
)
    requires
        call_ensures(spawn_kernel_thread, (state, task, priority), action),
    ensures
        action is SpawnRaw <==> !old(state).prepared,
        action is Wait <==> old(state).prepared && !old(state).scheduler_ready,
        action matches SpawnAction::Register { thread } ==> thread == (PendingKernelThread {
            task,
            priority,
        }) && old(state).scheduler_ready,
        action is Wait ==> final(state).pending@ == old(state).pending@.push(
            PendingKernelThread { task, priority },
        ),
        !(action is Wait) ==> final(state).pending@ == old(state).pending@,
{
}

/// A kernel thread becomes a kernel task of its priority, with a stack, and outside any process.
pub proof fn law_registered_thread_is_a_kernel_task(
    tasks: &mut SchedTasks,
    place: TaskPlacement,
    thread: PendingKernelThread,
    addr: usize,
)
    requires
        call_ensures(register_kernel_thread, (tasks, place, thread), addr),
    ensures
        addr == place.addr,
        ({
            let made = final(tasks).objects@[addr];
            &&& made.task == thread.task
            &&& made.priority == thread.priority
            &&& made.is_kernel
            &&& !made.is_coroutine
            &&& made.pid == 0
            &&& made.thread_stack_ptr == place.stack
            &&& made.shared_task_key is None
            &&& place.start.stack_top matches Some(top) ==> made.trap_frame == place.frame && final(tasks).frames@[place.frame].regs.sp == top && final(tasks).frames@[place.frame].sepc
                == place.start.entry
        }),
{
}

/// A kernel thread that ends can be woken by no waker that is left.
pub proof fn law_ended_thread_is_not_woken(tasks: &mut SchedTasks, current: usize, task: AxTask)
    requires
        call_ensures(exit_current_kernel_thread, (tasks, current), task),
        old(tasks).resolve(current) is Some,
    ensures
        ({
            let addr = old(tasks).resolve(current).unwrap();
            let before = old(tasks).objects@[addr];
            let after = final(tasks).objects@[addr];
            &&& task == before.task
            &&& after.wake_generation != before.wake_generation
            &&& after.task == before.task
        }),
{
}

/// A kernel task gets a priority from 0 to 15, and no other task and no other priority does.
pub proof fn law_priorities_are_within_bounds(
    tasks: &mut SchedTasks,
    current: usize,
    priority: isize,
    ok: bool,
)
    requires
        call_ensures(set_external_task_priority, (tasks, current, priority), ok),
    ensures
        old(tasks).resolve(current) is None ==> !ok,
        old(tasks).resolve(current) matches Some(addr) ==> {
            &&& ok <==> 0 <= priority <= 15 && old(tasks).objects@[addr].is_kernel
            &&& ok ==> final(tasks).objects@[addr] == (VschedTaskImpl {
                priority,
                ..old(tasks).objects@[addr]
            })
        },
        !ok ==> final(tasks).objects@ == old(tasks).objects@,
{
}

/// A task that exits is so for the scheduler, and can be woken by no waker that is left; the
/// system ends with the first user task, once.
pub proof fn law_exited_task_stays_so(
    state: &mut KernelState,
    tasks: &mut SchedTasks,
    task: usize,
    off: bool,
)
    requires
        call_ensures(set_vsched_task_exited, (state, tasks, task), off),
        old(tasks).resolve(task) matches Some(addr) && addr != 0 && (
        old(tasks).objects@[addr].shared_task_key matches Some(key) ==> key.slot < 64),
    ensures
        ({
            let addr = old(tasks).resolve(task).unwrap();
            &&& off <==> old(state).init_task == addr
            &&& off ==> final(state).init_task == 0
            &&& !off ==> final(state).init_task == old(state).init_task
            &&& state_at(*final(tasks), addr) == AxTaskState::Exited
            &&& final(tasks).objects@[addr].task.state == AxTaskState::Exited
            &&& final(tasks).objects@[addr].wake_generation != old(tasks).objects@[addr].wake_generation
        }),
{
}

/// The first user task is noted once, and the user task whose trap is handled on a CPU until it
/// is forgotten; a handler has the task whose trap it handles.
pub proof fn law_noted_tasks_are_found(
    recorded: &mut KernelState,
    noted: &mut KernelState,
    cleared: &mut KernelState,
    tasks: SchedTasks,
    cpu: usize,
    task: usize,
    current: usize,
    found: usize,
    other: int,
)
    requires
        call_ensures(record_init_task, (recorded, task), ()),
        call_ensures(set_trapped_vsched_task, (noted, cpu, task), ()),
        call_ensures(clear_trapped_vsched_task, (cleared, cpu, task), ()),
        call_ensures(trapped_vsched_task, (&*noted, &tasks, cpu, current), found),
        cpu < old(noted).trapped@.len(),
        cpu < old(cleared).trapped@.len(),
        0 <= other < old(noted).trapped@.len(),
        other < old(cleared).trapped@.len(),
    ensures
        final(recorded).init_task == task,
        final(noted).trapped@[cpu as int] == task,
        other != cpu ==> final(noted).trapped@[other] == old(noted).trapped@[other],
        old(cleared).trapped@[cpu as int] == task ==> final(cleared).trapped@[cpu as int] == 0,
        old(cleared).trapped@[cpu as int] != task ==> final(cleared).trapped@ == old(cleared).trapped@,
        other != cpu ==> final(cleared).trapped@[other] == old(cleared).trapped@[other],
        (tasks.resolve(current) matches Some(addr) && tasks.objects@[addr].trap_owner != 0)
            ==> found == tasks.objects@[tasks.resolve(current).unwrap()].trap_owner,
        !(tasks.resolve(current) matches Some(addr) && tasks.objects@[addr].trap_owner != 0)
            ==> found == old(noted).trapped@[cpu as int],
{
}

/// Each hook is registered where it is used, and nothing else changes.
pub proof fn law_hooks_are_registered(
    yields: &mut SchedulerHooks,
    toggles: &mut SchedulerHooks,
    blocks: &mut SchedulerHooks,
    externals: &mut SchedulerHooks,
    cpus: &mut SchedulerHooks,
    f: usize,
    current: usize,
    wake: usize,
    state: usize,
    external: ExternalHooks,
    cpu_num: usize,
    active: bool,
    counted: usize,
)
    requires
        f != 0,
        call_ensures(register_vsched2_yield, (yields, f), ()),
        call_ensures(vsched2_active, (&*final(yields),), active),
        call_ensures(register_block_on_toggle, (toggles, f), ()),
        call_ensures(register_block_on_hooks, (blocks, current, wake, state), ()),
        call_ensures(register_external_scheduler_hooks, (externals, external), ()),
        call_ensures(init_scheduler_with_cpu_num, (cpus, cpu_num), ()),
        call_ensures(active_cpu_num, (&*final(cpus),), counted),
    ensures
        *final(yields) == (SchedulerHooks { vsched2_yield: f, ..*old(yields) }),
        active,
        *final(toggles) == (SchedulerHooks { block_on_toggle: f, ..*old(toggles) }),
        final(blocks).block_on_current == current,
        final(blocks).block_on_wake == wake,
        final(blocks).block_on_state == state,
        final(blocks).vsched2_yield == old(blocks).vsched2_yield,
        final(blocks).block_on_toggle == old(blocks).block_on_toggle,
        *final(externals) == (SchedulerHooks { external, ..*old(externals) }),
        counted == cpu_num,
{
}

/// The start registers with each of its actions the hooks that belong to it.
pub proof fn law_start_registers_the_hooks(
    hooks: &mut SchedulerHooks,
    action: BootstrapAction,
    addresses: HookAddresses,
)
    requires
        call_ensures(apply_to_hooks, (hooks, action, addresses), ()),
    ensures
        final(hooks).vsched2_yield == (if action is RegisterYield {
            addresses.yield_fn
        } else {
            old(hooks).vsched2_yield
        }),
        final(hooks).block_on_toggle == (if action is RegisterToggle {
            addresses.toggle
        } else {
            old(hooks).block_on_toggle
        }),
        action is RegisterBlockOnHooks ==> final(hooks).block_on_current == addresses.current
            && final(hooks).block_on_wake == addresses.wake && final(hooks).block_on_state
            == addresses.state,
        !(action is RegisterBlockOnHooks) ==> final(hooks).block_on_current == old(hooks).block_on_current && final(hooks).block_on_wake == old(hooks).block_on_wake && final(hooks).block_on_state == old(hooks).block_on_state,
{
}

/// What a task asks of the scheduler goes to the hook that is registered for it, with what the
/// task gave, and nowhere without one.
pub proof fn law_hooks_are_called_with_what_was_given(
    hooks: SchedulerHooks,
    answer: (usize, usize),
    task: usize,
    generation: usize,
    blocking: bool,
    owner: Option<(usize, usize)>,
    wake: Option<WakeCall>,
    state: Option<StateCall>,
    yielded: YieldAction,
    tick: TimerTick,
)
    requires
        call_ensures(block_on_current_task, (&hooks, answer), owner),
        call_ensures(wake_block_on_task, (&hooks, task, generation), wake),
        call_ensures(transition_block_on_task, (&hooks, blocking), state),
        call_ensures(yield_now, (&hooks,), yielded),
        call_ensures(on_timer_tick, (&hooks,), tick),
    ensures
        owner is Some <==> hooks.block_on_current != 0 && answer.0 != 0,
        owner is Some ==> owner == Some(answer),
        wake is Some <==> hooks.block_on_wake != 0 && task != 0,
        wake matches Some(call) ==> call == (WakeCall {
            hook: hooks.block_on_wake,
            task,
            generation,
        }),
        state is Some <==> hooks.block_on_state != 0,
        state matches Some(call) ==> call == (StateCall { hook: hooks.block_on_state, blocking }),
        hooks.vsched2_yield == 0 ==> yielded == YieldAction::YieldCurrent,
        hooks.vsched2_yield != 0 ==> yielded == (YieldAction::CallExternal {
            hook: hooks.vsched2_yield,
        }),
        tick.check_events,
        tick.tick_run_queue <==> hooks.vsched2_yield == 0,
{
}

/// The kernel's tasks are the external scheduler's exactly for what it has a function for.
pub proof fn law_external_scheduler_takes_what_it_has_functions_for(
    hooks: SchedulerHooks,
    code: i32,
    prio: isize,
    mask: AxCpuMask,
    this_cpu: usize,
    spawned: SpawnCall,
    exited: ExitCall,
    prioritized: PriorityCall,
    bound: AffinityAction,
    refused: bool,
)
    requires
        call_ensures(spawn_task, (&hooks,), spawned),
        call_ensures(exit, (&hooks, code), exited),
        call_ensures(set_priority, (&hooks, prio), prioritized),
        call_ensures(set_current_affinity, (&hooks, mask, this_cpu), bound),
        call_ensures(reject_external_task_affinity, (&mask,), refused),
        this_cpu < 1024,
    ensures
        hooks.external.spawn == 0 ==> spawned is AddToRunQueue,
        hooks.external.spawn != 0 ==> spawned == (SpawnCall::CallExternal {
            hook: hooks.external.spawn,
        }),
        hooks.external.exit == 0 ==> exited == (ExitCall::ExitCurrent { exit_code: code }),
        hooks.external.exit != 0 ==> exited == (ExitCall::CallExternal {
            hook: hooks.external.exit,
            exit_code: code,
        }),
        hooks.external.priority == 0 ==> prioritized == (PriorityCall::SetCurrent { prio }),
        hooks.external.priority != 0 ==> prioritized == (PriorityCall::CallExternal {
            hook: hooks.external.priority,
            prio,
        }),
        hooks.external.affinity != 0 ==> bound == (AffinityAction::CallExternal {
            hook: hooks.external.affinity,
            mask,
        }),
        hooks.external.affinity == 0 ==> {
            let set = (mask.words@[this_cpu as int / 128] >> (this_cpu % 128) as u128) & 1 == 1;
            let empty = forall|i: int| 0 <= i < 8 ==> #[trigger] mask.words@[i] == 0;
            &&& bound is Reject <==> empty
            &&& !empty ==> (bound is Stay <==> set)
            &&& !empty ==> (bound is Migrate <==> !set)
        },
        !refused,
{
}

/// The task that is made current is the current one, what was current before is handed back,
/// and a slot that held nothing hands back nothing.
pub proof fn law_current_task_is_the_one_installed(
    during: &mut CurrentSlot,
    after: &mut CurrentSlot,
    installed: &mut CurrentSlot,
    run: &mut CurrentSlot,
    task: TaskRef,
    before: usize,
    released: TaskRef,
    replaced: Option<TaskRef>,
    entered: (Option<TaskRef>, usize),
    found: Option<CurrentTask>,
)
    requires
        task.addr != 0,
        call_ensures(begin_with_current_task, (during, task), before),
        *old(after) == *final(during),
        call_ensures(end_with_current_task, (after, before), released),
        call_ensures(install_current_task_for_external_scheduler, (installed, task), replaced),
        call_ensures(run_task_entry_for_external_scheduler, (run, task), entered),
        call_ensures(current_may_uninit, (&*final(installed),), found),
    ensures
        final(during).ptr == task.addr,
        before == old(during).ptr,
        final(after).ptr == old(during).ptr,
        released == task,
        final(installed).ptr == task.addr,
        replaced is None <==> old(installed).ptr == 0,
        replaced matches Some(r) ==> r.addr == old(installed).ptr,
        final(run).ptr == task.addr,
        entered.1 == task.addr,
        entered.0 is None <==> old(run).ptr == 0,
        entered.0 matches Some(r) ==> r.addr == old(run).ptr,
        found matches Some(c) && c.task.addr == task.addr,
{
}


/// Before anything is set up nothing is noted, and no thread waits, on any of the CPUs; and no
/// hook is registered.
pub proof fn law_nothing_is_set_up_at_first(
    cpu_num: usize,
    state: KernelState,
    hooks: SchedulerHooks,
    active: bool,
    i: int,
)
    requires
        call_ensures(KernelState::new, (cpu_num,), state),
        call_ensures(SchedulerHooks::new, (), hooks),
        call_ensures(vsched2_active, (&hooks,), active),
        0 <= i < cpu_num,
    ensures
        !state.interfaces_ready && !state.prepared && !state.scheduler_ready,
        state.init_task == 0,
        state.pending@.len() == 0,
        state.trapped@.len() == cpu_num,
        state.trapped@[i] == 0,
        !active,
        hooks.block_on_current == 0 && hooks.block_on_wake == 0 && hooks.block_on_state == 0
            && hooks.block_on_toggle == 0,
        hooks.external.spawn == 0 && hooks.external.exit == 0 && hooks.external.priority == 0
            && hooks.external.affinity == 0,
        hooks.cpu_num == 1,
{
}


/// Whatever is asked, the task of a CPU is the one whose address its slot holds.
pub proof fn law_task_of_a_cpu_is_the_one_in_its_slot(
    slot: CurrentSlot,
    asked: CurrentTask,
    got: CurrentTask,
    shared: &TaskRef,
    other: CurrentTask,
    woken: usize,
)
    requires
        call_ensures(current, (&slot,), asked),
        call_ensures(CurrentTask::get, (&slot,), got),
        call_ensures(CurrentTask::as_task_ref, (&got,), shared),
        call_ensures(CurrentTask::waker, (&other, &slot), woken),
    ensures
        asked.task.addr == slot.ptr,
        got.task.addr == slot.ptr,
        shared.addr == slot.ptr,
        woken == slot.ptr,
{
}


/// Threads that are taken, and those that are let in, change nothing else of what the kernel
/// notes.
pub proof fn law_threads_change_only_who_waits(
    queued: &mut KernelState,
    spawned: &mut KernelState,
    opened: &mut KernelState,
    task: AxTask,
    priority: isize,
    now: Option<PendingKernelThread>,
    action: SpawnAction,
    waiting: Vec<PendingKernelThread>,
)
    requires
        call_ensures(enqueue_kernel_thread, (queued, task, priority), now),
        call_ensures(spawn_kernel_thread, (spawned, task, priority), action),
        call_ensures(enable_kernel_thread_registration, (opened,), waiting),
    ensures
        notes_kept(*old(queued), *final(queued)),
        notes_kept(*old(spawned), *final(spawned)),
        notes_kept(*old(opened), *final(opened)),
        final(queued).scheduler_ready == old(queued).scheduler_ready,
        final(spawned).scheduler_ready == old(spawned).scheduler_ready,
        final(opened).scheduler_ready,
        final(opened).pending@.len() == 0,
        waiting@ == old(opened).pending@,
{
}

/// Whether all that the kernel notes, but for its threads, is what it was.
pub open spec fn notes_kept(before: KernelState, after: KernelState) -> bool {
    &&& after.interfaces_ready == before.interfaces_ready
    &&& after.prepared == before.prepared
    &&& after.placement == before.placement
    &&& after.init_task == before.init_task
    &&& after.trapped@ == before.trapped@
}

} // verus!
