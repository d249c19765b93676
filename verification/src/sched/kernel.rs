//! What the kernel keeps of the external scheduler, and how it starts it.

use vstd::prelude::*;

use crate::axtask::api::{
    register_block_on_hooks, register_block_on_toggle, register_external_scheduler_hooks,
    register_vsched2_yield, AxCpuMask, ExternalHooks, SchedulerHooks,
};
use crate::abi::slot::SharedTaskSlot;
use crate::sched::dispatch::{
    lemma_live_after_update, lemma_moved, lemma_object_changed, lemma_same_slots, object_changed,
};
use crate::sched::frames::{is_frame_call, is_fresh, FrameCall};
use crate::sched::registry::{
    direct_task, made_with, new_task, register_task, registered, SchedTasks, TaskPlacement,
};
use crate::sched::task::{slot_current, AxTask, VschedTaskImpl};
use crate::state::{raw_state, TaskState};
use crate::vdso::placement::VdsoPlacement;

verus! {

pub const HIGHEST_PRIORITY: isize = 0;

pub const LOWEST_PRIORITY: isize = 15;

/// A kernel thread that was made before the scheduler could take it.
#[derive(Clone, Copy, Debug, Eq, PartialEq, Structural)]
pub struct PendingKernelThread {
    pub task: AxTask,
    pub priority: isize,
}

/// What the kernel keeps of the external scheduler.
pub struct KernelState {
    /// The scheduler's interfaces have been given to it.
    pub interfaces_ready: bool,
    /// New kernel threads are for the external scheduler, though it may not run yet.
    pub prepared: bool,
    /// The scheduler takes kernel threads.
    pub scheduler_ready: bool,
    /// Where the scheduler's shared object is.
    pub placement: VdsoPlacement,
    /// The first user task, or 0. The system ends with it.
    pub init_task: usize,
    pub pending: Vec<PendingKernelThread>,
    /// For each CPU the user task whose trap is handled there, or 0.
    pub trapped: Vec<usize>,
}

impl KernelState {
    /// The state before anything has been set up, on `cpu_num` CPUs.
    pub fn new(cpu_num: usize) -> (state: Self)
        ensures
            !state.interfaces_ready,
            !state.prepared,
            !state.scheduler_ready,
            state.placement == VdsoPlacement::nowhere(),
            state.init_task == 0,
            state.pending@ == Seq::<PendingKernelThread>::empty(),
            state.trapped@ == Seq::new(cpu_num as nat, |i: int| 0usize),
            state.wf(),
    {
        KernelState {
            interfaces_ready: false,
            prepared: false,
            scheduler_ready: false,
            placement: VdsoPlacement::new(),
            init_task: 0,
            pending: Vec::new(),
            trapped: vec![0usize; cpu_num],
        }
    }

    /// Whether the scheduler takes threads at once if it has been set up.
    pub open spec fn wf(self) -> bool {
        self.scheduler_ready ==> self.pending@.len() == 0
    }

    /// Whether everything but the pending threads is as in `other`.
    pub open spec fn same_but_pending(self, other: KernelState) -> bool {
        &&& self.interfaces_ready == other.interfaces_ready
        &&& self.prepared == other.prepared
        &&& self.placement == other.placement
        &&& self.init_task == other.init_task
        &&& self.trapped@ == other.trapped@
    }
}

/// Notes that the scheduler's interfaces are given to it, and where its shared object is.
/// Returns whether that is still to be done; the second time nothing changes.
pub fn init_vsched2_interfaces(state: &mut KernelState, placement: VdsoPlacement) -> (first: bool)
    ensures
        first == !old(state).interfaces_ready,
        first ==> *final(state) == (KernelState {
            interfaces_ready: true,
            placement,
            ..*old(state)
        }),
        !first ==> *final(state) == *old(state),
{
    if state.interfaces_ready {
        return false;
    }
    state.interfaces_ready = true;
    state.placement = placement;
    true
}

/// Selects the external scheduler before background threads are made: from then on it takes
/// over the kernel's tasks, by the functions `external`. Nothing is done if it is selected
/// already.
pub fn prepare_vsched2(
    state: &mut KernelState,
    hooks: &mut SchedulerHooks,
    external: ExternalHooks,
)
    ensures
        *final(state) == (KernelState { prepared: true, ..*old(state) }),
        *final(hooks) == (if old(state).prepared {
            *old(hooks)
        } else {
            SchedulerHooks { external, ..*old(hooks) }
        }),
{
    if state.prepared {
        return;
    }
    register_external_scheduler_hooks(hooks, external);
    state.prepared = true;
}

/// Takes a kernel thread. Returns it if the scheduler is to be given it now; otherwise it
/// waits until the scheduler takes threads.
pub fn enqueue_kernel_thread(state: &mut KernelState, task: AxTask, priority: isize) -> (now:
    Option<PendingKernelThread>)
    requires
        old(state).wf(),
    ensures
        now == (if old(state).scheduler_ready {
            Some(PendingKernelThread { task, priority })
        } else {
            None
        }),
        final(state).pending@ == (if old(state).scheduler_ready {
            old(state).pending@
        } else {
            old(state).pending@.push(PendingKernelThread { task, priority })
        }),
        final(state).scheduler_ready == old(state).scheduler_ready,
        final(state).same_but_pending(*old(state)),
        final(state).wf(),
{
    if !state.scheduler_ready {
        state.pending.push(PendingKernelThread { task, priority });
        return None;
    }
    Some(PendingKernelThread { task, priority })
}

/// Takes a kernel thread of the task API, which gives no priority of its own.
pub fn external_spawn_kernel_thread(state: &mut KernelState, task: AxTask) -> (now: Option<
    PendingKernelThread,
>)
    requires
        old(state).wf(),
    ensures
        now == (if old(state).scheduler_ready {
            Some(PendingKernelThread { task, priority: (HIGHEST_PRIORITY + 1) as isize })
        } else {
            None
        }),
        final(state).pending@ == (if old(state).scheduler_ready {
            old(state).pending@
        } else {
            old(state).pending@.push(
                PendingKernelThread { task, priority: (HIGHEST_PRIORITY + 1) as isize },
            )
        }),
        final(state).scheduler_ready == old(state).scheduler_ready,
        final(state).same_but_pending(*old(state)),
        final(state).wf(),
{
    enqueue_kernel_thread(state, task, HIGHEST_PRIORITY + 1)
}

/// Lets the scheduler take kernel threads, and returns those that waited, in the order in
/// which they came.
pub fn enable_kernel_thread_registration(state: &mut KernelState) -> (waiting: Vec<
    PendingKernelThread,
>)
    ensures
        waiting@ == old(state).pending@,
        final(state).pending@.len() == 0,
        final(state).scheduler_ready,
        final(state).same_but_pending(*old(state)),
        final(state).wf(),
{
    state.scheduler_ready = true;
    let mut waiting: Vec<PendingKernelThread> = Vec::new();
    waiting.append(&mut state.pending);
    waiting
}

/// What happens to kernel threads: one is made, or the scheduler begins to take them.
#[derive(Clone, Copy, Debug, Eq, PartialEq, Structural)]
pub enum ThreadEvent {
    Made { thread: PendingKernelThread },
    Enabled,
}

/// The threads that the scheduler is given in the course of the events, and those that
/// still wait at the end.
pub open spec fn threads_given(
    ready: bool,
    waiting: Seq<PendingKernelThread>,
    events: Seq<ThreadEvent>,
) -> (Seq<PendingKernelThread>, Seq<PendingKernelThread>)
    decreases events.len(),
{
    if events.len() == 0 {
        (Seq::empty(), waiting)
    } else {
        match events[0] {
            ThreadEvent::Made { thread } => if ready {
                let (given, left) = threads_given(ready, waiting, events.skip(1));
                (seq![thread] + given, left)
            } else {
                threads_given(ready, waiting.push(thread), events.skip(1))
            },
            ThreadEvent::Enabled => {
                let (given, left) = threads_given(true, Seq::empty(), events.skip(1));
                (waiting + given, left)
            },
        }
    }
}

/// The threads that are made in the course of the events.
pub open spec fn threads_made(events: Seq<ThreadEvent>) -> Seq<PendingKernelThread>
    decreases events.len(),
{
    if events.len() == 0 {
        Seq::empty()
    } else {
        match events[0] {
            ThreadEvent::Made { thread } => seq![thread] + threads_made(events.skip(1)),
            ThreadEvent::Enabled => threads_made(events.skip(1)),
        }
    }
}

/// No kernel thread is lost and none is given to the scheduler twice: those given and those
/// that still wait are, in order, those that waited and those that were made.
pub proof fn law_threads_are_given_once_in_order(
    ready: bool,
    waiting: Seq<PendingKernelThread>,
    events: Seq<ThreadEvent>,
)
    requires
        ready ==> waiting.len() == 0,
    ensures
        ({
            let (given, left) = threads_given(ready, waiting, events);
            given + left == waiting + threads_made(events)
        }),
    decreases events.len(),
{
    let (given, left) = threads_given(ready, waiting, events);
    if events.len() == 0 {
        assert(given + left =~= waiting + threads_made(events));
    } else {
        let rest = events.skip(1);
        match events[0] {
            ThreadEvent::Made { thread } => if ready {
                law_threads_are_given_once_in_order(ready, waiting, rest);
                let (g, l) = threads_given(ready, waiting, rest);
                assert(given + left =~= seq![thread] + (g + l));
                assert(waiting + threads_made(events) =~= seq![thread] + (waiting + threads_made(
                    rest,
                )));
            } else {
                law_threads_are_given_once_in_order(ready, waiting.push(thread), rest);
                assert(waiting.push(thread) + threads_made(rest) =~= waiting + threads_made(
                    events,
                ));
            },
            ThreadEvent::Enabled => {
                law_threads_are_given_once_in_order(true, Seq::empty(), rest);
                let (g, l) = threads_given(true, Seq::empty(), rest);
                assert(given + left =~= waiting + (g + l));
                assert(Seq::<PendingKernelThread>::empty() + threads_made(rest) =~= threads_made(
                    rest,
                ));
            },
        }
    }
}

/// Makes the task object of a kernel thread, which the scheduler is then given.
pub fn register_kernel_thread(
    tasks: &mut SchedTasks,
    place: TaskPlacement,
    thread: PendingKernelThread,
) -> (addr: usize)
    requires
        old(tasks).kernel_wf(),
        place.addr != 0,
        place.addr % 2 == 0,
        !old(tasks).objects@.contains_key(place.addr),
        place.start.frame() is Some ==> is_fresh(*old(tasks), place.frame),
    ensures
        addr == place.addr,
        final(tasks).objects@ == old(tasks).objects@.insert(
            addr,
            new_task(place, thread.task, thread.priority, 0, true, None, 0),
        ),
        final(tasks).frames@ == (match place.start.frame() {
            Some(frame) => old(tasks).frames@.insert(place.frame, frame),
            None => old(tasks).frames@,
        }),
        is_frame_call(*old(tasks), *final(tasks), made_with(addr, place.start.frame())),
        final(tasks).table == old(tasks).table,
        registered(final(tasks).registry) == registered(old(tasks).registry),
        final(tasks).kernel_wf(),
        old(tasks).in_step() ==> final(tasks).in_step(),
{
    register_task(tasks, place, thread.task, thread.priority, 0, true, None, 0)
}

/// Ends the kernel thread that runs: wakers that are still around cannot wake it any more.
/// `current` is its task ID or its address. Returns its kernel task, whose exit is to be
/// announced.
pub fn exit_current_kernel_thread(tasks: &mut SchedTasks, current: usize) -> (task: AxTask)
    requires
        old(tasks).kernel_wf(),
        old(tasks).resolve(current) matches Some(addr) && old(tasks).objects@.contains_key(addr)
            && old(tasks).objects@[addr].is_kernel,
    ensures
        ({
            let addr = old(tasks).resolve(current).unwrap();
            let object = old(tasks).objects@[addr];
            &&& task == object.task
            &&& object_changed(
                *old(tasks),
                *final(tasks),
                addr,
                (VschedTaskImpl {
                    wake_generation: object.wake_generation.wrapping_add(1),
                    ..object
                }),
            )
        }),
        final(tasks).table == old(tasks).table,
        is_frame_call(*old(tasks), *final(tasks), FrameCall::Keep),
        final(tasks).kernel_wf(),
        old(tasks).in_step() ==> final(tasks).in_step(),
{
    broadcast use vstd::std_specs::btree::group_btree_axioms;

    let addr: usize = direct_task(tasks, current).unwrap();
    let mut object: VschedTaskImpl = *tasks.objects.get(&addr).unwrap();
    object.finish_kernel_thread();
    tasks.objects.insert(addr, object);
    proof {
        lemma_object_changed(*old(tasks), *tasks, addr, object);
    }
    object.task
}

/// What becomes of a new kernel thread.
#[derive(Clone, Copy, Debug, Eq, PartialEq, Structural)]
pub enum SpawnAction {
    /// It goes to the kernel's own run queue.
    SpawnRaw,
    /// It waits for the external scheduler.
    Wait,
    /// The external scheduler gets it.
    Register { thread: PendingKernelThread },
}

/// Makes a kernel thread, under the scheduler that this boot has selected.
pub fn spawn_kernel_thread(state: &mut KernelState, task: AxTask, priority: isize) -> (action:
    SpawnAction)
    requires
        old(state).wf(),
    ensures
        action == (if !old(state).prepared {
            SpawnAction::SpawnRaw
        } else if old(state).scheduler_ready {
            SpawnAction::Register { thread: PendingKernelThread { task, priority } }
        } else {
            SpawnAction::Wait
        }),
        final(state).pending@ == (if action is Wait {
            old(state).pending@.push(PendingKernelThread { task, priority })
        } else {
            old(state).pending@
        }),
        final(state).scheduler_ready == old(state).scheduler_ready,
        final(state).same_but_pending(*old(state)),
        final(state).wf(),
{
    if !state.prepared {
        return SpawnAction::SpawnRaw;
    }
    match enqueue_kernel_thread(state, task, priority) {
        Some(thread) => SpawnAction::Register { thread },
        None => SpawnAction::Wait,
    }
}

/// Sets the priority of the current task, if it is a kernel task and the priority is one
/// that the scheduler has. `current` is its task ID or its address, or 0.
pub fn set_external_task_priority(tasks: &mut SchedTasks, current: usize, priority: isize) -> (ok:
    bool)
    requires
        old(tasks).kernel_wf(),
        old(tasks).resolve(current) matches Some(addr) ==> old(tasks).objects@.contains_key(addr),
    ensures
        ok == (HIGHEST_PRIORITY <= priority <= LOWEST_PRIORITY && (old(tasks).resolve(
            current,
        ) matches Some(addr) && old(tasks).objects@[addr].is_kernel)),
        ok ==> ({
            let addr = old(tasks).resolve(current).unwrap();
            object_changed(
                *old(tasks),
                *final(tasks),
                addr,
                (VschedTaskImpl { priority, ..old(tasks).objects@[addr] }),
            )
        }),
        !ok ==> final(tasks).objects@ == old(tasks).objects@ && registered(final(tasks).registry)
            == registered(old(tasks).registry),
        final(tasks).table == old(tasks).table,
        is_frame_call(*old(tasks), *final(tasks), FrameCall::Keep),
        final(tasks).kernel_wf(),
        old(tasks).in_step() ==> final(tasks).in_step(),
{
    broadcast use vstd::std_specs::btree::group_btree_axioms;

    if priority < HIGHEST_PRIORITY || priority > LOWEST_PRIORITY {
        return false;
    }
    let addr: usize = match direct_task(tasks, current) {
        Some(addr) => addr,
        None => {
            return false;
        },
    };
    let mut object: VschedTaskImpl = *tasks.objects.get(&addr).unwrap();
    if !object.is_kernel {
        return false;
    }
    object.priority = priority;
    tasks.objects.insert(addr, object);
    proof {
        lemma_object_changed(*old(tasks), *tasks, addr, object);
    }
    true
}

/// Whether the scheduler can keep a task to some CPUs. It has no such operation, and
/// nothing else may claim that it did.
pub fn reject_external_task_affinity(_cpumask: &AxCpuMask) -> (ok: bool)
    ensures
        !ok,
{
    false
}

/// The task that blocks, as the scheduler names it, and its wait generation. Both are 0 if no
/// task runs.
pub fn current_block_on_task(tasks: &SchedTasks, current: usize) -> (task: (usize, usize))
    requires
        tasks.resolve(current) matches Some(addr) ==> tasks.objects@.contains_key(addr),
    ensures
        task == (match tasks.resolve(current) {
            Some(addr) => (current, tasks.objects@[addr].wake_generation),
            None => (0, 0),
        }),
{
    broadcast use vstd::std_specs::btree::group_btree_axioms;

    match direct_task(tasks, current) {
        Some(addr) => (current, tasks.objects.get(&addr).unwrap().wake_generation),
        None => (0, 0),
    }
}

/// The state that a task moves to when its blocking starts, or is cancelled.
pub open spec fn block_on_target(blocking: bool, previous: TaskState) -> TaskState {
    if blocking {
        if previous == TaskState::Running {
            TaskState::Blocking
        } else {
            previous
        }
    } else {
        if previous == TaskState::Blocking {
            TaskState::Running
        } else {
            previous
        }
    }
}

/// Whether a task is in a state in which its blocking can start, or be cancelled: it was
/// running, or blocking, or has exited meanwhile.
pub open spec fn block_on_source(blocking: bool, previous: TaskState) -> bool {
    previous == TaskState::Exited || previous == (if blocking {
        TaskState::Running
    } else {
        TaskState::Blocking
    })
}

/// Starts the blocking of the current task, or cancels it: running becomes blocking, or
/// blocking running. `current` is its task ID or its address, or 0. Returns whether it did; a
/// task that has exited stays so.
pub fn transition_block_on_task(tasks: &mut SchedTasks, current: usize, blocking: bool) -> (done:
    bool)
    requires
        old(tasks).kernel_wf(),
        old(tasks).resolve(current) matches Some(addr) ==> {
            &&& old(tasks).objects@.contains_key(addr)
            &&& slot_current(old(tasks).objects@[addr], old(tasks).table)
            &&& block_on_source(
                blocking,
                old(tasks).objects@[addr].current_state(old(tasks).table),
            )
        },
    ensures
        old(tasks).resolve(current) is None ==> {
            &&& !done
            &&& final(tasks).objects@ == old(tasks).objects@
            &&& final(tasks).table == old(tasks).table
            &&& registered(final(tasks).registry) == registered(old(tasks).registry)
        },
        old(tasks).resolve(current) matches Some(addr) ==> {
            let object = old(tasks).objects@[addr];
            let previous = object.current_state(old(tasks).table);
            let next = block_on_target(blocking, previous);
            &&& done == (previous != TaskState::Exited)
            &&& object_changed(*old(tasks), *final(tasks), addr, object.with_state(next))
            &&& object.slot_moved(old(tasks).table, final(tasks).table, next)
        },
        is_frame_call(*old(tasks), *final(tasks), FrameCall::Keep),
        final(tasks).kernel_wf(),
        old(tasks).in_step() ==> final(tasks).in_step(),
{
    broadcast use vstd::std_specs::btree::group_btree_axioms;

    let addr: usize = match direct_task(tasks, current) {
        Some(addr) => addr,
        None => {
            return false;
        },
    };
    let mut object: VschedTaskImpl = *tasks.objects.get(&addr).unwrap();
    let previous: TaskState = if blocking {
        object.match_set_state(
            &mut tasks.table,
            TaskState::Ready,
            TaskState::Blocking,
            TaskState::Blocked,
            TaskState::Exited,
            TaskState::Blocking,
        )
    } else {
        object.match_set_state(
            &mut tasks.table,
            TaskState::Ready,
            TaskState::Running,
            TaskState::Blocked,
            TaskState::Exited,
            TaskState::Running,
        )
    };
    tasks.objects.insert(addr, object);
    proof {
        lemma_moved(*old(tasks), *tasks, addr, object, block_on_target(blocking, previous));
    }
    previous != TaskState::Exited
}

/// What a wake did: whether the task will run, and whether it is to be put into a ready
/// queue now.
#[derive(Clone, Copy, Debug, Eq, PartialEq, Structural)]
pub struct WakeOutcome {
    pub woken: bool,
    pub push: bool,
}

/// The state that a task moves to when it is woken.
pub open spec fn wake_target(previous: TaskState) -> TaskState {
    if previous == TaskState::Blocked || previous == TaskState::Blocking {
        TaskState::Ready
    } else {
        previous
    }
}

/// Wakes a task that waits in the given generation. `task` is its task ID or its address, or
/// 0. The one wake that finds it blocked puts it into a ready queue. One that finds it
/// blocking, with its context not saved yet, leaves that to whoever saves it.
pub fn wake_blocked_task(tasks: &mut SchedTasks, task: usize, generation: usize) -> (outcome:
    WakeOutcome)
    requires
        old(tasks).kernel_wf(),
        old(tasks).resolve(task) matches Some(addr) ==> old(tasks).objects@.contains_key(addr)
            && slot_current(old(tasks).objects@[addr], old(tasks).table),
    ensures
        (old(tasks).resolve(task) matches Some(addr) ==> old(tasks).objects@[addr].wake_generation
            != generation) ==> {
            &&& outcome == (WakeOutcome { woken: false, push: false })
            &&& final(tasks).objects@ == old(tasks).objects@
            &&& final(tasks).table == old(tasks).table
            &&& registered(final(tasks).registry) == registered(old(tasks).registry)
        },
        (old(tasks).resolve(task) matches Some(addr) && old(tasks).objects@[addr].wake_generation
            == generation) ==> {
            let addr = old(tasks).resolve(task).unwrap();
            let object = old(tasks).objects@[addr];
            let previous = object.current_state(old(tasks).table);
            &&& outcome == (WakeOutcome {
                woken: previous != TaskState::Running && previous != TaskState::Exited,
                push: previous == TaskState::Blocked,
            })
            &&& object_changed(
                *old(tasks),
                *final(tasks),
                addr,
                object.with_state(wake_target(previous)),
            )
            &&& object.slot_moved(old(tasks).table, final(tasks).table, wake_target(previous))
        },
        is_frame_call(*old(tasks), *final(tasks), FrameCall::Keep),
        final(tasks).kernel_wf(),
        old(tasks).in_step() ==> final(tasks).in_step(),
{
    broadcast use vstd::std_specs::btree::group_btree_axioms;

    let addr: usize = match direct_task(tasks, task) {
        Some(addr) => addr,
        None => {
            return WakeOutcome { woken: false, push: false };
        },
    };
    let mut object: VschedTaskImpl = *tasks.objects.get(&addr).unwrap();
    if object.wake_generation != generation {
        return WakeOutcome { woken: false, push: false };
    }
    let previous: TaskState = object.match_set_state(
        &mut tasks.table,
        TaskState::Ready,
        TaskState::Running,
        TaskState::Ready,
        TaskState::Exited,
        TaskState::Ready,
    );
    tasks.objects.insert(addr, object);
    proof {
        lemma_moved(*old(tasks), *tasks, addr, object, wake_target(previous));
    }
    match previous {
        TaskState::Blocked => WakeOutcome { woken: true, push: true },
        TaskState::Blocking => WakeOutcome { woken: true, push: false },
        TaskState::Ready => WakeOutcome { woken: true, push: false },
        TaskState::Running | TaskState::Exited => WakeOutcome { woken: false, push: false },
    }
}

/// A task that was woken is not put into a ready queue by a second wake.
pub proof fn law_one_wake_enqueues(previous: TaskState)
    ensures
        wake_target(previous) != TaskState::Blocked,
        wake_target(wake_target(previous)) == wake_target(previous),
{
}

/// A blocking that was started and is cancelled leaves the task running.
pub proof fn law_cancel_undoes_blocking(previous: TaskState)
    requires
        previous == TaskState::Running,
    ensures
        block_on_source(false, block_on_target(true, previous)),
        block_on_target(false, block_on_target(true, previous)) == previous,
{
}

/// Notes the user task whose trap is handled on a CPU.
pub fn set_trapped_vsched_task(state: &mut KernelState, cpu: usize, task: usize)
    requires
        cpu < old(state).trapped@.len(),
    ensures
        final(state).trapped@ == old(state).trapped@.update(cpu as int, task),
        final(state).pending@ == old(state).pending@,
        final(state).init_task == old(state).init_task,
        final(state).scheduler_ready == old(state).scheduler_ready,
        final(state).prepared == old(state).prepared,
        final(state).interfaces_ready == old(state).interfaces_ready,
        final(state).placement == old(state).placement,
{
    state.trapped[cpu] = task;
}

/// The user task whose trap the current task handles, or else the one that is noted for
/// the CPU. `current` is the task ID or the address of the current task, or 0.
pub fn trapped_vsched_task(state: &KernelState, tasks: &SchedTasks, cpu: usize, current: usize) -> (
task: usize)
    requires
        cpu < state.trapped@.len(),
        tasks.resolve(current) matches Some(addr) ==> tasks.objects@.contains_key(addr),
    ensures
        task == (match tasks.resolve(current) {
            Some(addr) => if tasks.objects@[addr].trap_owner != 0 {
                tasks.objects@[addr].trap_owner
            } else {
                state.trapped@[cpu as int]
            },
            None => state.trapped@[cpu as int],
        }),
{
    broadcast use vstd::std_specs::btree::group_btree_axioms;

    if let Some(addr) = direct_task(tasks, current) {
        let owner: usize = tasks.objects.get(&addr).unwrap().trap_owner;
        if owner != 0 {
            return owner;
        }
    }
    state.trapped[cpu]
}

/// Forgets the user task whose trap was handled on a CPU, unless another has been noted
/// since.
pub fn clear_trapped_vsched_task(state: &mut KernelState, cpu: usize, task: usize)
    requires
        cpu < old(state).trapped@.len(),
    ensures
        final(state).trapped@ == (if old(state).trapped@[cpu as int] == task {
            old(state).trapped@.update(cpu as int, 0)
        } else {
            old(state).trapped@
        }),
        final(state).pending@ == old(state).pending@,
        final(state).init_task == old(state).init_task,
        final(state).scheduler_ready == old(state).scheduler_ready,
        final(state).prepared == old(state).prepared,
        final(state).interfaces_ready == old(state).interfaces_ready,
        final(state).placement == old(state).placement,
{
    if state.trapped[cpu] == task {
        state.trapped[cpu] = 0;
    }
}

/// Ends a task for the scheduler. `task` is its task ID or its address. Returns whether the
/// system ends with it: only the first user task does that, and only once.
pub fn set_vsched_task_exited(state: &mut KernelState, tasks: &mut SchedTasks, task: usize) -> (
system_off: bool)
    requires
        old(tasks).kernel_wf(),
        old(tasks).resolve(task) matches Some(addr) && old(tasks).objects@.contains_key(addr)
            && slot_current(old(tasks).objects@[addr], old(tasks).table),
    ensures
        system_off == (old(tasks).resolve(task) == Some(old(state).init_task)),
        *final(state) == (if system_off {
            (KernelState { init_task: 0, ..*old(state) })
        } else {
            *old(state)
        }),
        ({
            let addr = old(tasks).resolve(task).unwrap();
            let object = old(tasks).objects@[addr];
            &&& object_changed(
                *old(tasks),
                *final(tasks),
                addr,
                (VschedTaskImpl {
                    wake_generation: object.wake_generation.wrapping_add(1),
                    ..object.with_state(TaskState::Exited)
                }),
            )
            &&& object.slot_moved(old(tasks).table, final(tasks).table, TaskState::Exited)
        }),
        is_frame_call(*old(tasks), *final(tasks), FrameCall::Keep),
        final(tasks).kernel_wf(),
        old(tasks).in_step() ==> final(tasks).in_step(),
{
    broadcast use vstd::std_specs::btree::group_btree_axioms;

    let addr: usize = direct_task(tasks, task).unwrap();
    let mut object: VschedTaskImpl = *tasks.objects.get(&addr).unwrap();
    object.wake_generation = object.wake_generation.wrapping_add(1);
    object.set_state(&mut tasks.table, TaskState::Exited);
    tasks.objects.insert(addr, object);
    proof {
        if let Some(key) = object.shared_task_key {
            lemma_live_after_update(
                old(tasks).table,
                tasks.table,
                key,
                SharedTaskSlot {
                    task_state: raw_state(TaskState::Exited),
                    ..old(tasks).table.of(key)
                },
            );
        } else {
            lemma_same_slots(old(tasks).table, tasks.table);
        }
        lemma_object_changed(*old(tasks), *tasks, addr, object);
    }
    if state.init_task == addr {
        state.init_task = 0;
        return true;
    }
    false
}

/// What is done to start the scheduler.
#[derive(Clone, Copy, Debug, Eq, PartialEq, Structural)]
pub enum BootstrapAction {
    DisableIrqs,
    InitInterfaces,
    RegisterToggle,
    RegisterBlockOnHooks,
    RegisterYield,
    InitRunQueueEmpty,
    /// Make the task object of what runs now, with the lowest priority.
    RegisterMainTask,
    /// Tell the scheduler its first stack and the main task.
    KernelInitMain,
    EnableKernelThreads,
    RecordInitTask { task: usize },
    /// Show the kernel's memory in the address space.
    CopyKernelMappings { vspace: usize },
    SwitchPageTable { root: usize },
    ProcessInit { vspace: usize },
    UserInit { vspace: usize },
    /// Keep the entry that `ProcessInit` made with what the kernel has of the process, and
    /// with the task.
    BindInitProcess { task: usize },
    /// Give the first user task a slot in the shared table, and an ID with it.
    RegisterInitTask { task: usize },
    /// Give the first user task, by its ID, to the scheduler of its process.
    PushInitTask { task: usize },
    RestorePageTable { root: usize },
    ActivateTrapVector,
    BlockBootTask,
    /// Never comes back.
    EnterScheduler,
}

/// The part of the start that makes the scheduler active and lets it take threads.
pub open spec fn bootstrap_head() -> Seq<BootstrapAction> {
    seq![
        BootstrapAction::DisableIrqs,
        BootstrapAction::InitInterfaces,
        BootstrapAction::RegisterToggle,
        BootstrapAction::RegisterBlockOnHooks,
        BootstrapAction::RegisterYield,
        BootstrapAction::InitRunQueueEmpty,
        BootstrapAction::RegisterMainTask,
        BootstrapAction::KernelInitMain,
        BootstrapAction::EnableKernelThreads,
    ]
}

/// The part of the start that sets up the first user process. Its page table is the CPU's
/// meanwhile, if it has one of its own.
pub open spec fn bootstrap_user(task: usize, vspace: usize, root: usize, kernel_root: usize) -> Seq<
    BootstrapAction,
> {
    let enter = if vspace == 0 {
        Seq::<BootstrapAction>::empty()
    } else if root != 0 && root != kernel_root {
        seq![
            BootstrapAction::CopyKernelMappings { vspace },
            BootstrapAction::SwitchPageTable { root },
        ]
    } else {
        seq![BootstrapAction::CopyKernelMappings { vspace }]
    };
    enter + seq![
        BootstrapAction::ProcessInit { vspace },
        BootstrapAction::UserInit { vspace },
        BootstrapAction::BindInitProcess { task },
        BootstrapAction::RegisterInitTask { task },
        BootstrapAction::PushInitTask { task },
        BootstrapAction::RestorePageTable { root: kernel_root },
    ]
}

/// The part of the start between the two above and the last.
pub open spec fn bootstrap_middle(
    init_task: Option<usize>,
    vspace: Option<usize>,
    root: usize,
    kernel_root: usize,
) -> Seq<BootstrapAction> {
    let record = match init_task {
        Some(task) => seq![BootstrapAction::RecordInitTask { task }],
        None => Seq::empty(),
    };
    let user = match (init_task, vspace) {
        (Some(task), Some(v)) => bootstrap_user(task, v, root, kernel_root),
        _ => Seq::empty(),
    };
    let sync = match vspace {
        Some(v) => if v != 0 {
            seq![BootstrapAction::CopyKernelMappings { vspace: v }]
        } else {
            Seq::empty()
        },
        None => Seq::empty(),
    };
    record + user + sync
}

/// The last part of the start.
pub open spec fn bootstrap_tail() -> Seq<BootstrapAction> {
    seq![
        BootstrapAction::ActivateTrapVector,
        BootstrapAction::BlockBootTask,
        BootstrapAction::EnterScheduler,
    ]
}

/// All that is done to start the scheduler, in order.
pub open spec fn bootstrap_actions(
    init_task: Option<usize>,
    vspace: Option<usize>,
    root: usize,
    kernel_root: usize,
) -> Seq<BootstrapAction> {
    bootstrap_head() + bootstrap_middle(init_task, vspace, root, kernel_root) + bootstrap_tail()
}

/// Starts the scheduler: says what is to be done, in order, to run the first user task
/// `init_task` in the address space `vspace`. `root` is the page table of that address
/// space, where there is one, and `kernel_root` the one in use.
pub fn vsched2_bootstrap(
    init_task: Option<usize>,
    vspace: Option<usize>,
    root: usize,
    kernel_root: usize,
) -> (actions: Vec<BootstrapAction>)
    requires
        init_task != Some(0usize),
    ensures
        actions@ == bootstrap_actions(init_task, vspace, root, kernel_root),
{
    let mut actions: Vec<BootstrapAction> = Vec::new();
    actions.push(BootstrapAction::DisableIrqs);
    actions.push(BootstrapAction::InitInterfaces);
    // The hooks come before the yield function: that one says that the scheduler is active,
    // and whoever finds it active uses the hooks.
    actions.push(BootstrapAction::RegisterToggle);
    actions.push(BootstrapAction::RegisterBlockOnHooks);
    actions.push(BootstrapAction::RegisterYield);
    actions.push(BootstrapAction::InitRunQueueEmpty);
    actions.push(BootstrapAction::RegisterMainTask);
    actions.push(BootstrapAction::KernelInitMain);
    actions.push(BootstrapAction::EnableKernelThreads);
    assert(actions@ =~= bootstrap_head());
    if let Some(task) = init_task {
        actions.push(BootstrapAction::RecordInitTask { task });
    }
    if let Some(task) = init_task {
        if let Some(v) = vspace {
            if v != 0 {
                actions.push(BootstrapAction::CopyKernelMappings { vspace: v });
                if root != 0 && root != kernel_root {
                    actions.push(BootstrapAction::SwitchPageTable { root });
                }
            }
            actions.push(BootstrapAction::ProcessInit { vspace: v });
            actions.push(BootstrapAction::UserInit { vspace: v });
            actions.push(BootstrapAction::BindInitProcess { task });
            actions.push(BootstrapAction::RegisterInitTask { task });
            actions.push(BootstrapAction::PushInitTask { task });
            actions.push(BootstrapAction::RestorePageTable { root: kernel_root });
        }
    }
    if let Some(v) = vspace {
        if v != 0 {
            actions.push(BootstrapAction::CopyKernelMappings { vspace: v });
        }
    }
    assert(actions@ =~= bootstrap_head() + bootstrap_middle(init_task, vspace, root, kernel_root));
    actions.push(BootstrapAction::ActivateTrapVector);
    actions.push(BootstrapAction::BlockBootTask);
    actions.push(BootstrapAction::EnterScheduler);
    assert(actions@ =~= bootstrap_actions(init_task, vspace, root, kernel_root));
    actions
}

/// Notes the first user task. There is none yet.
pub fn record_init_task(state: &mut KernelState, task: usize)
    requires
        task != 0,
        old(state).init_task == 0,
    ensures
        *final(state) == (KernelState { init_task: task, ..*old(state) }),
{
    state.init_task = task;
}

/// The addresses of the scheduler's hooks.
#[derive(Clone, Copy, Debug, Eq, PartialEq, Structural)]
pub struct HookAddresses {
    pub toggle: usize,
    pub current: usize,
    pub wake: usize,
    pub state: usize,
    pub yield_fn: usize,
}

/// The hooks after an action.
pub open spec fn hooks_after(
    hooks: SchedulerHooks,
    action: BootstrapAction,
    addresses: HookAddresses,
) -> SchedulerHooks {
    match action {
        BootstrapAction::RegisterToggle => SchedulerHooks {
            block_on_toggle: addresses.toggle,
            ..hooks
        },
        BootstrapAction::RegisterBlockOnHooks => SchedulerHooks {
            block_on_current: addresses.current,
            block_on_wake: addresses.wake,
            block_on_state: addresses.state,
            ..hooks
        },
        BootstrapAction::RegisterYield => SchedulerHooks {
            vsched2_yield: addresses.yield_fn,
            ..hooks
        },
        _ => hooks,
    }
}

/// Carries out an action on the hooks. Actions that do not concern them leave them as they
/// are.
pub fn apply_to_hooks(
    hooks: &mut SchedulerHooks,
    action: BootstrapAction,
    addresses: HookAddresses,
)
    requires
        action == BootstrapAction::RegisterYield ==> addresses.yield_fn != 0,
    ensures
        *final(hooks) == hooks_after(*old(hooks), action, addresses),
{
    match action {
        BootstrapAction::RegisterToggle => register_block_on_toggle(hooks, addresses.toggle),
        BootstrapAction::RegisterBlockOnHooks => register_block_on_hooks(
            hooks,
            addresses.current,
            addresses.wake,
            addresses.state,
        ),
        BootstrapAction::RegisterYield => register_vsched2_yield(hooks, addresses.yield_fn),
        _ => {},
    }
}

/// The hooks after the first `n` actions.
pub open spec fn hooks_after_actions(
    hooks: SchedulerHooks,
    actions: Seq<BootstrapAction>,
    addresses: HookAddresses,
    n: nat,
) -> SchedulerHooks
    decreases n,
{
    if n == 0 {
        hooks
    } else {
        hooks_after(
            hooks_after_actions(hooks, actions, addresses, (n - 1) as nat),
            actions[n - 1],
            addresses,
        )
    }
}

/// At every point of the start, whoever finds the scheduler active finds all its hooks
/// registered.
pub proof fn law_active_scheduler_has_its_hooks(
    hooks: SchedulerHooks,
    init_task: Option<usize>,
    vspace: Option<usize>,
    root: usize,
    kernel_root: usize,
    addresses: HookAddresses,
    n: nat,
)
    requires
        hooks.vsched2_yield == 0,
        n <= bootstrap_actions(init_task, vspace, root, kernel_root).len(),
    ensures
        ({
            let actions = bootstrap_actions(init_task, vspace, root, kernel_root);
            let after = hooks_after_actions(hooks, actions, addresses, n);
            after.vsched2_yield != 0 ==> {
                &&& after.block_on_toggle == addresses.toggle
                &&& after.block_on_current == addresses.current
                &&& after.block_on_wake == addresses.wake
                &&& after.block_on_state == addresses.state
            }
        }),
    decreases n,
{
    let actions = bootstrap_actions(init_task, vspace, root, kernel_root);
    if n > 0 {
        let m = (n - 1) as nat;
        law_active_scheduler_has_its_hooks(
            hooks,
            init_task,
            vspace,
            root,
            kernel_root,
            addresses,
            m,
        );
        if m == 4 {
            lemma_starts_with_head(init_task, vspace, root, kernel_root);
            lemma_hooks_of_the_head(hooks, actions, addresses);
        } else if m < 9 {
            lemma_starts_with_head(init_task, vspace, root, kernel_root);
            if m < 4 {
                lemma_not_active_yet(
                    hooks,
                    init_task,
                    vspace,
                    root,
                    kernel_root,
                    addresses,
                    n,
                );
            }
        } else {
            lemma_later_actions_leave_hooks(init_task, vspace, root, kernel_root, m as int);
        }
    }
}

proof fn lemma_starts_with_head(
    init_task: Option<usize>,
    vspace: Option<usize>,
    root: usize,
    kernel_root: usize,
)
    ensures
        ({
            let actions = bootstrap_actions(init_task, vspace, root, kernel_root);
            &&& actions.len() >= 9
            &&& forall|i: int|
                0 <= i < 9 ==> #[trigger] actions[i] == bootstrap_head()[i]
        }),
{
}

proof fn lemma_hooks_of_the_head(
    hooks: SchedulerHooks,
    actions: Seq<BootstrapAction>,
    addresses: HookAddresses,
)
    requires
        actions.len() >= 9,
        forall|i: int| 0 <= i < 9 ==> #[trigger] actions[i] == bootstrap_head()[i],
    ensures
        ({
            let after = hooks_after_actions(hooks, actions, addresses, 5);
            &&& after.block_on_toggle == addresses.toggle
            &&& after.block_on_current == addresses.current
            &&& after.block_on_wake == addresses.wake
            &&& after.block_on_state == addresses.state
        }),
{
    assert(actions[2] == BootstrapAction::RegisterToggle);
    assert(actions[3] == BootstrapAction::RegisterBlockOnHooks);
    assert(actions[4] == BootstrapAction::RegisterYield);
    let two = hooks_after_actions(hooks, actions, addresses, 2);
    let three = hooks_after_actions(hooks, actions, addresses, 3);
    let four = hooks_after_actions(hooks, actions, addresses, 4);
    assert(three == hooks_after(two, actions[2], addresses));
    assert(four == hooks_after(three, actions[3], addresses));
    assert(hooks_after_actions(hooks, actions, addresses, 5) == hooks_after(
        four,
        actions[4],
        addresses,
    ));
}

proof fn lemma_not_active_yet(
    hooks: SchedulerHooks,
    init_task: Option<usize>,
    vspace: Option<usize>,
    root: usize,
    kernel_root: usize,
    addresses: HookAddresses,
    n: nat,
)
    requires
        hooks.vsched2_yield == 0,
        n <= 4,
    ensures
        hooks_after_actions(
            hooks,
            bootstrap_actions(init_task, vspace, root, kernel_root),
            addresses,
            n,
        ).vsched2_yield == 0,
    decreases n,
{
    let actions = bootstrap_actions(init_task, vspace, root, kernel_root);
    if n > 0 {
        lemma_not_active_yet(
            hooks,
            init_task,
            vspace,
            root,
            kernel_root,
            addresses,
            (n - 1) as nat,
        );
        lemma_starts_with_head(init_task, vspace, root, kernel_root);
    }
}

proof fn lemma_later_actions_leave_hooks(
    init_task: Option<usize>,
    vspace: Option<usize>,
    root: usize,
    kernel_root: usize,
    i: int,
)
    requires
        9 <= i < bootstrap_actions(init_task, vspace, root, kernel_root).len(),
    ensures
        ({
            let action = bootstrap_actions(init_task, vspace, root, kernel_root)[i];
            !(action is RegisterToggle) && !(action is RegisterBlockOnHooks)
                && !(action is RegisterYield)
        }),
{
    let middle = bootstrap_middle(init_task, vspace, root, kernel_root);
    let actions = bootstrap_actions(init_task, vspace, root, kernel_root);
    if i < 9 + middle.len() {
        assert(actions[i] == middle[i - 9]);
    } else {
        assert(actions[i] == bootstrap_tail()[i - 9 - middle.len()]);
    }
}

/// Whatever page table the start of a first user process switches to, the one that was in
/// use is in use again before the scheduler is entered, and entering it is the last thing
/// that is done.
pub proof fn law_bootstrap_restores_the_page_table(
    init_task: Option<usize>,
    vspace: Option<usize>,
    root: usize,
    kernel_root: usize,
    i: int,
)
    requires
        0 <= i < bootstrap_actions(init_task, vspace, root, kernel_root).len(),
        bootstrap_actions(init_task, vspace, root, kernel_root)[i] is SwitchPageTable,
    ensures
        i + 6 < bootstrap_actions(init_task, vspace, root, kernel_root).len(),
        bootstrap_actions(init_task, vspace, root, kernel_root)[i + 6]
            == (BootstrapAction::RestorePageTable { root: kernel_root }),
        bootstrap_actions(init_task, vspace, root, kernel_root).last()
            == BootstrapAction::EnterScheduler,
{
    let middle = bootstrap_middle(init_task, vspace, root, kernel_root);
    let actions = bootstrap_actions(init_task, vspace, root, kernel_root);
    if i < 9 {
        assert(actions[i] == bootstrap_head()[i]);
    } else if i < 9 + middle.len() {
        assert(actions[i] == middle[i - 9]);
        assert(actions[i + 6] == (if i + 6 < 9 + middle.len() {
            middle[i + 6 - 9]
        } else {
            bootstrap_tail()[i + 6 - 9 - middle.len()]
        }));
    } else {
        assert(actions[i] == bootstrap_tail()[i - 9 - middle.len()]);
    }
}

} // verus!
