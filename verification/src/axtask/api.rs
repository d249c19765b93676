//! The hooks of an external scheduler, the task that runs on a CPU, and what the task
//! API decides by them.

use vstd::prelude::*;

use crate::asynctask::current::CurrentTask;

verus! {

/// The external scheduler's hooks, each the address of a function, or 0 while it is not
/// registered, and the number of CPUs that take part in scheduling.
pub struct SchedulerHooks {
    /// Leaves the CPU to the external scheduler.
    pub vsched2_yield: usize,
    /// Turns the current coroutine into a thread, and back.
    pub block_on_toggle: usize,
    /// Starts or cancels the blocking of the current task.
    pub block_on_state: usize,
    /// Says which task runs, with its wait generation.
    pub block_on_current: usize,
    /// Wakes a task that `block_on_current` named.
    pub block_on_wake: usize,
    /// Takes the kernel tasks of an external scheduler.
    pub external: ExternalHooks,
    pub cpu_num: usize,
}

/// The functions by which an external scheduler takes over the kernel's tasks, by address.
/// They are 0 as long as none has done so.
#[derive(Clone, Copy, Debug, Eq, PartialEq, Structural)]
pub struct ExternalHooks {
    /// Takes a new kernel task.
    pub spawn: usize,
    /// Ends the current task.
    pub exit: usize,
    /// Sets the priority of the current task.
    pub priority: usize,
    /// Sets the CPUs of the current task.
    pub affinity: usize,
}

impl ExternalHooks {
    /// No function at all.
    pub open spec fn none() -> ExternalHooks {
        ExternalHooks { spawn: 0, exit: 0, priority: 0, affinity: 0 }
    }
}

/// A call of the wake hook.
#[derive(Clone, Copy, Debug, Eq, PartialEq, Structural)]
pub struct WakeCall {
    pub hook: usize,
    pub task: usize,
    pub generation: usize,
}

/// A call of the state hook.
#[derive(Clone, Copy, Debug, Eq, PartialEq, Structural)]
pub struct StateCall {
    pub hook: usize,
    pub blocking: bool,
}

impl SchedulerHooks {
    /// No hook registered, and one CPU.
    pub fn new() -> (hooks: Self)
        ensures
            hooks == (SchedulerHooks {
                vsched2_yield: 0,
                block_on_toggle: 0,
                block_on_state: 0,
                block_on_current: 0,
                block_on_wake: 0,
                external: ExternalHooks::none(),
                cpu_num: 1,
            }),
    {
        SchedulerHooks {
            vsched2_yield: 0,
            block_on_toggle: 0,
            block_on_state: 0,
            block_on_current: 0,
            block_on_wake: 0,
            external: ExternalHooks { spawn: 0, exit: 0, priority: 0, affinity: 0 },
            cpu_num: 1,
        }
    }
}

/// Registers the function that leaves the CPU to the external scheduler. From then on
/// every yield goes there.
pub fn register_vsched2_yield(hooks: &mut SchedulerHooks, yield_fn: usize)
    requires
        yield_fn != 0,
    ensures
        *final(hooks) == (SchedulerHooks { vsched2_yield: yield_fn, ..*old(hooks) }),
{
    hooks.vsched2_yield = yield_fn;
}

/// Registers the function that converts the current task's context.
pub fn register_block_on_toggle(hooks: &mut SchedulerHooks, toggle: usize)
    ensures
        *final(hooks) == (SchedulerHooks { block_on_toggle: toggle, ..*old(hooks) }),
{
    hooks.block_on_toggle = toggle;
}

/// Registers the functions by which a task blocks on a future.
pub fn register_block_on_hooks(
    hooks: &mut SchedulerHooks,
    current: usize,
    wake: usize,
    state: usize,
)
    ensures
        *final(hooks) == (SchedulerHooks {
            block_on_current: current,
            block_on_wake: wake,
            block_on_state: state,
            ..*old(hooks)
        }),
{
    hooks.block_on_current = current;
    hooks.block_on_wake = wake;
    hooks.block_on_state = state;
}

/// Registers the functions by which an external scheduler takes over the kernel's tasks. From
/// then on no task of the kernel gets into its own run queue.
pub fn register_external_scheduler_hooks(hooks: &mut SchedulerHooks, external: ExternalHooks)
    ensures
        *final(hooks) == (SchedulerHooks { external, ..*old(hooks) }),
{
    hooks.external = external;
}

/// The task that blocks, with its wait generation. `answer` is what the registered hook
/// says; it is not looked at where none is registered.
pub fn block_on_current_task(hooks: &SchedulerHooks, answer: (usize, usize)) -> (task: Option<
    (usize, usize),
>)
    ensures
        task == (if hooks.block_on_current != 0 && answer.0 != 0 {
            Some(answer)
        } else {
            None
        }),
{
    if hooks.block_on_current == 0 {
        return None;
    }
    if answer.0 != 0 {
        Some(answer)
    } else {
        None
    }
}

/// The call that wakes a task, if one is to be made.
pub fn wake_block_on_task(hooks: &SchedulerHooks, task: usize, generation: usize) -> (call: Option<
    WakeCall,
>)
    ensures
        call == (if hooks.block_on_wake != 0 && task != 0 {
            Some(WakeCall { hook: hooks.block_on_wake, task, generation })
        } else {
            None
        }),
{
    if hooks.block_on_wake == 0 || task == 0 {
        return None;
    }
    Some(WakeCall { hook: hooks.block_on_wake, task, generation })
}

/// The call that starts (`blocking`) or cancels the blocking of the current task, if the
/// hook is registered.
pub fn transition_block_on_task(hooks: &SchedulerHooks, blocking: bool) -> (call: Option<StateCall>)
    ensures
        call == (if hooks.block_on_state != 0 {
            Some(StateCall { hook: hooks.block_on_state, blocking })
        } else {
            None
        }),
{
    if hooks.block_on_state == 0 {
        return None;
    }
    Some(StateCall { hook: hooks.block_on_state, blocking })
}

/// Whether the external scheduler runs.
pub fn vsched2_active(hooks: &SchedulerHooks) -> (active: bool)
    ensures
        active == (hooks.vsched2_yield != 0),
{
    hooks.vsched2_yield != 0
}

/// Notes how many CPUs take part in scheduling.
pub fn init_scheduler_with_cpu_num(hooks: &mut SchedulerHooks, cpu_num: usize)
    ensures
        *final(hooks) == (SchedulerHooks { cpu_num, ..*old(hooks) }),
{
    hooks.cpu_num = cpu_num;
}

/// How many CPUs take part in scheduling.
pub fn active_cpu_num(hooks: &SchedulerHooks) -> (n: usize)
    ensures
        n == hooks.cpu_num,
{
    hooks.cpu_num
}

/// What a timer tick asks for.
#[derive(Clone, Copy, Debug, Eq, PartialEq, Structural)]
pub struct TimerTick {
    /// Wake what waits for a time that has come.
    pub check_events: bool,
    /// Count the tick against the current task of the kernel's own run queue.
    pub tick_run_queue: bool,
}

/// Says what a timer tick asks for. Timers are looked at under any scheduler; the kernel's own
/// run queue has its ticks only as long as the external scheduler does not run.
pub fn on_timer_tick(hooks: &SchedulerHooks) -> (tick: TimerTick)
    ensures
        tick == (TimerTick { check_events: true, tick_run_queue: hooks.vsched2_yield == 0 }),
{
    TimerTick { check_events: true, tick_run_queue: !vsched2_active(hooks) }
}

/// Who takes a new kernel task.
#[derive(Clone, Copy, Debug, Eq, PartialEq, Structural)]
pub enum SpawnCall {
    /// The external scheduler, by a call of its function.
    CallExternal { hook: usize },
    /// The kernel's own run queue.
    AddToRunQueue,
}

/// Says who takes a new kernel task: the external scheduler from the time on that it takes
/// over the kernel's tasks, though it may not run yet.
pub fn spawn_task(hooks: &SchedulerHooks) -> (call: SpawnCall)
    ensures
        call == (if hooks.external.spawn != 0 {
            SpawnCall::CallExternal { hook: hooks.external.spawn }
        } else {
            SpawnCall::AddToRunQueue
        }),
{
    if hooks.external.spawn != 0 {
        return SpawnCall::CallExternal { hook: hooks.external.spawn };
    }
    SpawnCall::AddToRunQueue
}

/// Who ends the current task.
#[derive(Clone, Copy, Debug, Eq, PartialEq, Structural)]
pub enum ExitCall {
    /// The external scheduler, by a call of its function.
    CallExternal { hook: usize, exit_code: i32 },
    /// The kernel's own run queue.
    ExitCurrent { exit_code: i32 },
}

/// Ends the current task with an exit code.
pub fn exit(hooks: &SchedulerHooks, exit_code: i32) -> (call: ExitCall)
    ensures
        call == (if hooks.external.exit != 0 {
            ExitCall::CallExternal { hook: hooks.external.exit, exit_code }
        } else {
            ExitCall::ExitCurrent { exit_code }
        }),
{
    if hooks.external.exit != 0 {
        return ExitCall::CallExternal { hook: hooks.external.exit, exit_code };
    }
    ExitCall::ExitCurrent { exit_code }
}

/// Who sets the priority of the current task.
#[derive(Clone, Copy, Debug, Eq, PartialEq, Structural)]
pub enum PriorityCall {
    /// The external scheduler, by a call of its function.
    CallExternal { hook: usize, prio: isize },
    /// The kernel's own run queue.
    SetCurrent { prio: isize },
}

/// Sets the priority of the current task. Whoever does it says whether it is a priority.
pub fn set_priority(hooks: &SchedulerHooks, prio: isize) -> (call: PriorityCall)
    ensures
        call == (if hooks.external.priority != 0 {
            PriorityCall::CallExternal { hook: hooks.external.priority, prio }
        } else {
            PriorityCall::SetCurrent { prio }
        }),
{
    if hooks.external.priority != 0 {
        return PriorityCall::CallExternal { hook: hooks.external.priority, prio };
    }
    PriorityCall::SetCurrent { prio }
}

/// How the current task gives up the CPU.
#[derive(Clone, Copy, Debug, Eq, PartialEq, Structural)]
pub enum YieldAction {
    /// By a call of the external scheduler's function.
    CallExternal { hook: usize },
    /// Through the kernel's own run queue.
    YieldCurrent,
}

/// Gives up the CPU: to the external scheduler if it runs, through the kernel's own run
/// queue if not.
pub fn yield_now(hooks: &SchedulerHooks) -> (action: YieldAction)
    ensures
        action == (if hooks.vsched2_yield != 0 {
            YieldAction::CallExternal { hook: hooks.vsched2_yield }
        } else {
            YieldAction::YieldCurrent
        }),
{
    if hooks.vsched2_yield != 0 {
        return YieldAction::CallExternal { hook: hooks.vsched2_yield };
    }
    YieldAction::YieldCurrent
}

/// How many CPUs a mask can name.
pub const CPU_MASK_BITS: usize = 1024;

/// A set of CPUs: a bit for each, the lowest first. Those of CPUs that are not there are 0.
#[derive(Clone, Copy, Debug, Eq, PartialEq)]
pub struct AxCpuMask {
    pub words: [u128; 8],
}

impl AxCpuMask {
    /// Whether the bit of a CPU is set.
    pub open spec fn has(self, cpu: usize) -> bool {
        (self.words@[(cpu / 128) as int] >> ((cpu % 128) as u128)) & 1 == 1
    }

    /// Whether no bit is set.
    pub open spec fn is_none(self) -> bool {
        forall|i: int| 0 <= i < 8 ==> #[trigger] self.words@[i] == 0
    }
}

/// `cpumask::CpuMask::<1024>::is_empty`: whether no bit of the mask is set.
#[verifier::external_body]
fn mask_is_empty(mask: &AxCpuMask) -> (empty: bool)
    ensures
        empty == mask.is_none(),
{
    cpumask::CpuMask::<1024>::from_value(mask.words).is_empty()
}

/// `cpumask::CpuMask::<1024>::get`: whether the bit at `cpu` is set. It takes an index
/// below the number of bits.
#[verifier::external_body]
fn mask_get(mask: &AxCpuMask, cpu: usize) -> (set: bool)
    requires
        cpu < CPU_MASK_BITS,
    ensures
        set == mask.has(cpu),
{
    cpumask::CpuMask::<1024>::from_value(mask.words).get(cpu)
}

/// What becomes of the current task when its affinity changes.
#[derive(Clone, Copy, Debug, Eq, PartialEq)]
pub enum AffinityAction {
    /// What the external scheduler makes of the mask, by a call of its function.
    CallExternal { hook: usize, mask: AxCpuMask },
    /// Nothing: the mask allows no CPU.
    Reject,
    /// It gets the mask and stays where it is.
    Stay,
    /// It gets the mask and is moved to a CPU of the mask.
    Migrate,
}

/// Sets the CPUs on which the current task may run. `this_cpu` is the one it runs on.
pub fn set_current_affinity(hooks: &SchedulerHooks, mask: AxCpuMask, this_cpu: usize) -> (action:
    AffinityAction)
    requires
        this_cpu < CPU_MASK_BITS,
    ensures
        action == (if hooks.external.affinity != 0 {
            AffinityAction::CallExternal { hook: hooks.external.affinity, mask }
        } else if mask.is_none() {
            AffinityAction::Reject
        } else if mask.has(this_cpu) {
            AffinityAction::Stay
        } else {
            AffinityAction::Migrate
        }),
{
    if hooks.external.affinity != 0 {
        AffinityAction::CallExternal { hook: hooks.external.affinity, mask }
    } else if mask_is_empty(&mask) {
        AffinityAction::Reject
    } else if !mask_get(&mask, this_cpu) {
        AffinityAction::Migrate
    } else {
        AffinityAction::Stay
    }
}

/// A strong reference to a task. Whoever holds the value holds the reference.
#[derive(Debug, Eq, PartialEq, Structural)]
pub struct TaskRef {
    pub addr: usize,
}

/// The task that a CPU runs, by address, or 0. The slot owns one strong reference to it.
pub struct CurrentSlot {
    pub ptr: usize,
}

/// The slot while `task` is made the current task for a while, and the task that was current.
pub open spec fn overridden(slot: CurrentSlot, task: TaskRef) -> (CurrentSlot, usize) {
    (CurrentSlot { ptr: task.addr }, slot.ptr)
}

/// The slot once the task is put back that was current, and the reference that the slot held
/// meanwhile.
pub open spec fn put_back(slot: CurrentSlot, before: usize) -> (CurrentSlot, TaskRef) {
    (CurrentSlot { ptr: before }, TaskRef { addr: slot.ptr })
}

/// Makes `task` the current task while something runs. Returns the task that was current,
/// which `end_with_current_task` puts back.
pub fn begin_with_current_task(slot: &mut CurrentSlot, task: TaskRef) -> (before: usize)
    requires
        old(slot).ptr != 0,
    ensures
        (*final(slot), before) == overridden(*old(slot), task),
{
    let before: usize = slot.ptr;
    slot.ptr = task.addr;
    before
}

/// Puts the task back that was current before `begin_with_current_task`, and returns the
/// reference that the slot held meanwhile.
pub fn end_with_current_task(slot: &mut CurrentSlot, before: usize) -> (released: TaskRef)
    ensures
        (*final(slot), released) == put_back(*old(slot), before),
{
    let released: TaskRef = TaskRef { addr: slot.ptr };
    slot.ptr = before;
    released
}

/// Makes `task` the current task, without the kernel's own run queue. Returns the
/// reference that is no longer needed: the one that the slot held, or `task` itself where
/// it is current already.
pub fn install_current_task_for_external_scheduler(slot: &mut CurrentSlot, task: TaskRef) -> (
released: Option<TaskRef>)
    requires
        task.addr != 0,
    ensures
        final(slot).ptr == task.addr,
        released == (if old(slot).ptr != 0 {
            Some(TaskRef { addr: old(slot).ptr })
        } else {
            None
        }),
{
    if slot.ptr == task.addr {
        return Some(task);
    }
    let before: usize = slot.ptr;
    slot.ptr = task.addr;
    if before != 0 {
        Some(TaskRef { addr: before })
    } else {
        None
    }
}

/// The task that a CPU runs, if any.
pub fn current_may_uninit(slot: &CurrentSlot) -> (task: Option<CurrentTask>)
    ensures
        task == (if slot.ptr != 0 {
            Some(CurrentTask { task: TaskRef { addr: slot.ptr } })
        } else {
            None
        }),
{
    CurrentTask::try_get(slot)
}

/// The task that a CPU runs.
pub fn current(slot: &CurrentSlot) -> (task: CurrentTask)
    requires
        slot.ptr != 0,
    ensures
        task == (CurrentTask { task: TaskRef { addr: slot.ptr } }),
{
    CurrentTask::get(slot)
}

/// Makes a task of an external scheduler the current one before its entry is run. Returns the
/// reference that is no longer needed, and the task whose entry is run.
pub fn run_task_entry_for_external_scheduler(slot: &mut CurrentSlot, task: TaskRef) -> (run: (
    Option<TaskRef>,
    usize,
))
    requires
        task.addr != 0,
    ensures
        final(slot).ptr == task.addr,
        run.0 == (if old(slot).ptr != 0 {
            Some(TaskRef { addr: old(slot).ptr })
        } else {
            None
        }),
        run.1 == task.addr,
{
    let addr: usize = task.addr;
    (install_current_task_for_external_scheduler(slot, task), addr)
}

/// Once an external scheduler has taken over the kernel's tasks, none of them is left to the
/// kernel's own run queue: it is neither made there, nor ended, nor given a priority or CPUs.
pub proof fn law_external_tasks_leave_the_run_queue(hooks: SchedulerHooks)
    requires
        hooks.external.spawn != 0,
        hooks.external.exit != 0,
        hooks.external.priority != 0,
        hooks.external.affinity != 0,
    ensures
        forall|call: SpawnCall|
            call_ensures(spawn_task, (&hooks,), call) ==> call is CallExternal,
        forall|exit_code: i32, call: ExitCall|
            call_ensures(exit, (&hooks, exit_code), call) ==> call is CallExternal,
        forall|prio: isize, call: PriorityCall|
            call_ensures(set_priority, (&hooks, prio), call) ==> call is CallExternal,
        forall|mask: AxCpuMask, this_cpu: usize, action: AffinityAction|
            call_ensures(set_current_affinity, (&hooks, mask, this_cpu), action)
                ==> action is CallExternal,
{
}

/// Something that runs under a task finds that task to be the current one; afterwards the
/// task that was current before is so again, and the reference that was taken for the time is
/// given back.
pub proof fn law_current_task_is_restored(slot: CurrentSlot, task: TaskRef)
    ensures
        ({
            let (during, before) = overridden(slot, task);
            let (after, released) = put_back(during, before);
            during.ptr == task.addr && after == slot && released == task
        }),
{
}

} // verus!
