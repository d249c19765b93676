//! Traps: who handles them, for whom, and under whose identity.

use vstd::prelude::*;

use crate::sched::dispatch::{
    lemma_object_changed, lemma_registry_kept, lemma_same_slots, object_changed,
};
use crate::sched::frames::{
    frame_place, is_frame_call, is_fresh, lemma_frame_saved, FrameCall,
};
use crate::sched::kernel::HIGHEST_PRIORITY;
use crate::sched::registry::{
    direct_task, law_registered_task_resolves, new_task, read_frame, register_task, registered,
    SchedTasks, TaskPlacement,
};
use crate::sched::task::{AxTask, EnterContext, LeaveContext, VschedTaskImpl, SIE};
use crate::sched::trapframe::UserTrapFrame;
use crate::state::AxTaskState;

verus! {

/// The cause of a timer interrupt.
pub const SCAUSE_TIMER: u64 = 0x8000000000000005;

/// The cause of a software interrupt.
pub const SCAUSE_SOFTWARE: u64 = 0x8000000000000001;

/// The cause of an external interrupt.
pub const SCAUSE_EXTERNAL: u64 = 0x8000000000000009;

/// The cause of a system call.
pub const SCAUSE_USER_ECALL: u64 = 8;

/// The system call by which a user scheduler enters the kernel.
pub const VSCHED2_INTO_KERNEL_SYSNO: usize = 0xdead;

/// For each CPU the user task whose trap was handled there last, or 0.
pub struct LastTrapped {
    pub tasks: Vec<usize>,
}

/// Notes the user task whose trap is handled on a CPU.
pub fn set_last_trapped_user_task(last: &mut LastTrapped, cpu: usize, task: usize)
    requires
        cpu < old(last).tasks@.len(),
    ensures
        final(last).tasks@ == old(last).tasks@.update(cpu as int, task),
{
    last.tasks[cpu] = task;
}

/// The user task whose trap the current task handles, or else the one that was noted last
/// on the CPU. `current` is the task ID or the address of the current task, or 0.
pub fn get_last_trapped_user_task(
    last: &LastTrapped,
    tasks: &SchedTasks,
    cpu: usize,
    current: usize,
) -> (task: usize)
    requires
        cpu < last.tasks@.len(),
        tasks.resolve(current) matches Some(addr) ==> tasks.objects@.contains_key(addr),
    ensures
        task == (match tasks.resolve(current) {
            Some(addr) => if tasks.objects@[addr].trap_owner != 0 {
                tasks.objects@[addr].trap_owner
            } else {
                last.tasks@[cpu as int]
            },
            None => last.tasks@[cpu as int],
        }),
{
    broadcast use vstd::std_specs::btree::group_btree_axioms;

    if let Some(addr) = direct_task(tasks, current) {
        let owner: usize = tasks.objects.get(&addr).unwrap().trap_owner;
        if owner != 0 {
            return owner;
        }
    }
    last.tasks[cpu]
}

/// Forgets a user task that was noted, unless another has been noted since.
pub fn clear_last_trapped_user_task(last: &mut LastTrapped, cpu: usize, task: usize)
    requires
        cpu < old(last).tasks@.len(),
    ensures
        final(last).tasks@ == (if old(last).tasks@[cpu as int] == task {
            old(last).tasks@.update(cpu as int, 0)
        } else {
            old(last).tasks@
        }),
{
    if last.tasks[cpu] == task {
        last.tasks[cpu] = 0;
    }
}

/// How many owners are followed: handlers that interrupt each other form a short chain.
pub const OWNER_CHAIN_LIMIT: usize = 8;

/// Whether the owners that are followed from `task`, each by its task ID or its address, are
/// task objects, and a user task or the end comes within `limit` of them.
pub open spec fn owner_chain_ok(tasks: SchedTasks, task: usize, limit: nat) -> bool
    decreases limit,
{
    limit > 0 && (tasks.resolve(task) matches Some(addr) ==> {
        &&& tasks.objects@.contains_key(addr)
        &&& !tasks.objects@[addr].is_kernel || owner_chain_ok(
            tasks,
            tasks.objects@[addr].trap_owner,
            (limit - 1) as nat,
        )
    })
}

/// The first user task, by address, among `task`, its owner, the owner's owner, and so on.
pub open spec fn user_owner(tasks: SchedTasks, task: usize, limit: nat) -> Option<usize>
    decreases limit,
{
    if limit == 0 {
        None
    } else {
        match tasks.resolve(task) {
            None => None,
            Some(addr) => if !tasks.objects@[addr].is_kernel {
                Some(addr)
            } else {
                user_owner(tasks, tasks.objects@[addr].trap_owner, (limit - 1) as nat)
            },
        }
    }
}

/// The user task for which a task handles a trap: the first one among the task itself, its
/// owner, the owner's owner, and so on.
pub fn effective_user_owner(tasks: &SchedTasks, task: usize) -> (owner: Option<usize>)
    requires
        owner_chain_ok(*tasks, task, OWNER_CHAIN_LIMIT as nat),
    ensures
        owner == user_owner(*tasks, task, OWNER_CHAIN_LIMIT as nat),
{
    broadcast use vstd::std_specs::btree::group_btree_axioms;

    let mut next: usize = task;
    let mut left: usize = OWNER_CHAIN_LIMIT;
    while left > 0
        invariant
            owner_chain_ok(*tasks, next, left as nat),
            user_owner(*tasks, task, OWNER_CHAIN_LIMIT as nat) == user_owner(
                *tasks,
                next,
                left as nat,
            ),
        decreases left,
    {
        let addr: usize = match direct_task(tasks, next) {
            Some(addr) => addr,
            None => {
                return None;
            },
        };
        let vti: &VschedTaskImpl = tasks.objects.get(&addr).unwrap();
        if !vti.is_kernel() {
            return Some(addr);
        }
        next = vti.trap_owner;
        left -= 1;
    }
    None
}

/// A trap is handled for a user task, or for none.
pub proof fn law_owner_is_a_user_task(tasks: SchedTasks, task: usize, limit: nat)
    requires
        owner_chain_ok(tasks, task, limit),
    ensures
        user_owner(tasks, task, limit) matches Some(owner) ==> tasks.objects@.contains_key(owner)
            && !tasks.objects@[owner].is_kernel,
    decreases limit,
{
    if let Some(addr) = tasks.resolve(task) {
        if tasks.objects@[addr].is_kernel {
            law_owner_is_a_user_task(
                tasks,
                tasks.objects@[addr].trap_owner,
                (limit - 1) as nat,
            );
        }
    }
}

/// A trap that comes while a handler works for a user task is handled for that user task too,
/// however many handlers interrupt each other, within the limit.
pub proof fn law_nested_traps_have_the_same_owner(
    tasks: SchedTasks,
    handler: usize,
    owner: usize,
    limit: nat,
)
    requires
        tasks.kernel_wf(),
        limit > 1,
        tasks.objects@.contains_key(handler),
        tasks.objects@[handler].is_kernel,
        tasks.objects@.contains_key(owner),
        tasks.objects@[handler].trap_owner == owner_name(owner, tasks.objects@[owner]),
        tasks.objects@[owner].shared_task_key matches Some(key) ==> tasks.table.live(key),
        owner_chain_ok(tasks, owner, (limit - 1) as nat),
    ensures
        owner_chain_ok(tasks, handler, limit),
        user_owner(tasks, handler, limit) == user_owner(tasks, owner, (limit - 1) as nat),
{
    let rest = (limit - 1) as nat;
    let name = tasks.objects@[handler].trap_owner;
    if let Some(id) = tasks.objects@[owner].spec_task_id() {
        law_registered_task_resolves(tasks, owner, id);
    }
    assert(tasks.resolve(name) == Some(owner) && tasks.resolve(owner) == Some(owner));
    assert(owner_chain_ok(tasks, name, rest));
    assert(user_owner(tasks, name, rest) == user_owner(tasks, owner, rest));
}

/// A trap that waits to be handled: what the CPU held when it came, and where it came.
#[derive(Clone, Copy, Debug, Eq, PartialEq, Structural)]
pub struct VschedTrapInfoImpl {
    pub frame: UserTrapFrame,
    /// The interrupt controller is one per CPU: an external interrupt must be handled where
    /// it came.
    pub origin_cpu: usize,
}

/// A trap that is being handled.
#[derive(Clone, Copy, Debug, Eq, PartialEq, Structural)]
pub struct TrapDispatch {
    /// The task that trapped. An interrupt from outside has none.
    pub trapped: Option<usize>,
    /// The user task for which the trap is handled.
    pub owner: Option<usize>,
    pub external_irq: bool,
    /// The identity under which the handler runs from now on, if it changes.
    pub enter: Option<EnterContext>,
}

/// What follows when a trap has been handled.
#[derive(Clone, Copy, Debug, Eq, PartialEq, Structural)]
pub struct TrapDone {
    /// Whether external interrupts are enabled again on this CPU.
    pub unmask_external: bool,
    /// The change of the handler's identity, if there is one.
    pub leave: Option<LeaveContext>,
}

/// One of the things that are done to handle a trap.
#[derive(Clone, Copy, Debug, Eq, PartialEq, Structural)]
pub enum TrapAction {
    /// The handler runs under another identity.
    Enter { context: EnterContext },
    /// Interrupts are as `state` says: enabled.
    EnableIrqs { state: usize },
    /// Call the dispatcher, for the task that trapped, with what the CPU held then.
    Dispatch { task: Option<usize>, frame: UserTrapFrame },
    /// Save the state of interrupts, which `end_handle` is told of, and disable them.
    DisableIrqs,
    /// Enable external interrupts on this CPU: the one that was handled is done with.
    UnmaskExternal,
    /// The handler runs under its own identity again.
    Leave { context: LeaveContext },
}

/// What is done between the beginning and the end of the handling of a trap, in order. The
/// queues of the scheduler are used with interrupts disabled; the dispatcher can be
/// interrupted.
pub open spec fn dispatch_steps(info: VschedTrapInfoImpl, dispatch: TrapDispatch) -> Seq<TrapAction> {
    let enter = match dispatch.enter {
        Some(context) => seq![TrapAction::Enter { context }],
        None => Seq::empty(),
    };
    enter + seq![
        TrapAction::EnableIrqs { state: SIE },
        TrapAction::Dispatch { task: dispatch.trapped, frame: info.frame },
        TrapAction::DisableIrqs,
    ]
}

/// What is done when a trap has been handled, in order.
pub open spec fn done_steps(done: TrapDone) -> Seq<TrapAction> {
    let unmask = if done.unmask_external {
        seq![TrapAction::UnmaskExternal]
    } else {
        Seq::empty()
    };
    unmask + match done.leave {
        Some(context) => seq![TrapAction::Leave { context }],
        None => Seq::<TrapAction>::empty(),
    }
}

impl TrapDone {
    /// Says what is done when a trap has been handled, in order.
    pub fn actions(&self) -> (actions: Vec<TrapAction>)
        ensures
            actions@ == done_steps(*self),
    {
        let mut actions: Vec<TrapAction> = Vec::new();
        if self.unmask_external {
            actions.push(TrapAction::UnmaskExternal);
        }
        if let Some(context) = self.leave {
            actions.push(TrapAction::Leave { context });
        }
        assert(actions@ =~= done_steps(*self));
        actions
    }
}

/// The dispatcher runs with interrupts enabled, and nothing else does; external interrupts are
/// unmasked after it, and the handler is itself again only then.
pub proof fn law_only_the_dispatcher_is_interrupted(
    info: VschedTrapInfoImpl,
    dispatch: TrapDispatch,
    done: TrapDone,
    i: int,
)
    requires
        0 <= i < (dispatch_steps(info, dispatch) + done_steps(done)).len(),
    ensures
        ({
            let all = dispatch_steps(info, dispatch) + done_steps(done);
            let first = dispatch_steps(info, dispatch).len();
            &&& all[i] is EnableIrqs <==> i == first - 3
            &&& all[i] is Dispatch <==> i == first - 2
            &&& all[i] is DisableIrqs <==> i == first - 1
            &&& all[i] is UnmaskExternal ==> i == first
            &&& all[i] is Leave ==> i == all.len() - 1 && i >= first
            &&& all[i] is Enter ==> i == 0
        }),
{
    let all = dispatch_steps(info, dispatch) + done_steps(done);
    let first = dispatch_steps(info, dispatch).len();
    if i < first {
        assert(all[i] == dispatch_steps(info, dispatch)[i]);
    } else {
        assert(all[i] == done_steps(done)[i - first]);
    }
}

/// How the user task at `addr` is named as the owner of a trap: by its task ID, if it has one,
/// and by its address otherwise.
pub open spec fn owner_name(addr: usize, owner: VschedTaskImpl) -> usize {
    match owner.spec_task_id() {
        Some(id) => id,
        None => addr,
    }
}

/// A handler that handles a trap of the user task `owner`.
pub open spec fn bound_to(handler: VschedTaskImpl, addr: usize, owner: VschedTaskImpl) -> VschedTaskImpl {
    VschedTaskImpl {
        execution_task: Some(owner.task.id),
        trap_owner: owner_name(addr, owner),
        ..handler
    }
}

impl VschedTrapInfoImpl {
    /// Makes a trap of what a task's frame holds. The trap keeps it whatever becomes of the
    /// frame. `task` is the task ID or the address of the task.
    pub fn from_task(tasks: &SchedTasks, task: usize, cpu: usize) -> (info: Self)
        requires
            tasks.kernel_wf(),
            tasks.resolve(task) matches Some(addr) && tasks.frame_of(addr) is Some,
        ensures
            tasks.resolve(task) matches Some(addr) && tasks.frame_of(addr) == Some(info.frame),
            info.origin_cpu == cpu,
    {
        VschedTrapInfoImpl { frame: read_frame(tasks, task).unwrap(), origin_cpu: cpu }
    }

    /// Whether the trap is an external interrupt.
    pub open spec fn is_external(self) -> bool {
        self.frame.scause as u64 == SCAUSE_EXTERNAL
    }

    /// The user task for which the trap of `task` is handled.
    pub open spec fn owner(task: Option<usize>, tasks: SchedTasks) -> Option<usize> {
        match task {
            Some(t) => user_owner(tasks, t, OWNER_CHAIN_LIMIT as nat),
            None => None,
        }
    }

    /// Begins to handle the trap of `task`. The task `handler`, which runs on `cpu`, runs
    /// under the identity of the user task that the trap concerns, if there is one.
    /// Nothing is done while no dispatcher is registered.
    pub fn begin_handle(
        &self,
        tasks: &mut SchedTasks,
        dispatcher: usize,
        task: Option<usize>,
        handler: usize,
        cpu: usize,
    ) -> (dispatch: Option<TrapDispatch>)
        requires
            old(tasks).kernel_wf(),
            dispatcher != 0 ==> {
                &&& task matches Some(t) ==> owner_chain_ok(
                    *old(tasks),
                    t,
                    OWNER_CHAIN_LIMIT as nat,
                )
                &&& VschedTrapInfoImpl::owner(task, *old(tasks)).is_some() ==> old(tasks).objects@.contains_key(handler) && old(tasks).objects@[handler].execution_task.is_none()
                &&& self.is_external() ==> self.origin_cpu == cpu
            },
        ensures
            dispatch.is_some() == (dispatcher != 0),
            final(tasks).table == old(tasks).table,
            is_frame_call(*old(tasks), *final(tasks), FrameCall::Keep),
            final(tasks).kernel_wf(),
            old(tasks).in_step() ==> final(tasks).in_step(),
            dispatch.is_none() || VschedTrapInfoImpl::owner(task, *old(tasks)).is_none() ==> final(tasks).objects@ == old(tasks).objects@ && registered(final(tasks).registry) == registered(
                old(tasks).registry,
            ),
            dispatch matches Some(d) ==> {
                &&& d.trapped == task
                &&& d.owner == VschedTrapInfoImpl::owner(task, *old(tasks))
                &&& d.external_irq == self.is_external()
                &&& d.enter == (match d.owner {
                    Some(o) => Some(
                        EnterContext { task: old(tasks).objects@[o].task.id, install_current: true },
                    ),
                    None => None,
                })
                &&& d.owner matches Some(o) ==> object_changed(
                    *old(tasks),
                    *final(tasks),
                    handler,
                    bound_to(old(tasks).objects@[handler], o, old(tasks).objects@[o]),
                )
            },
    {
        broadcast use vstd::std_specs::btree::group_btree_axioms;

        if dispatcher == 0 {
            return None;
        }
        let owner: Option<usize> = match task {
            Some(t) => effective_user_owner(tasks, t),
            None => None,
        };
        let mut enter: Option<EnterContext> = None;
        if let Some(o) = owner {
            proof {
                law_owner_is_a_user_task(*old(tasks), task.unwrap(), OWNER_CHAIN_LIMIT as nat);
            }
            let owner_object: VschedTaskImpl = *tasks.objects.get(&o).unwrap();
            let mut object: VschedTaskImpl = *tasks.objects.get(&handler).unwrap();
            enter = Some(object.bind_execution_task(o, &owner_object));
            tasks.objects.insert(handler, object);
            proof {
                lemma_object_changed(*old(tasks), *tasks, handler, object);
            }
        }
        let external_irq: bool = self.frame.scause as u64 == SCAUSE_EXTERNAL;
        Some(TrapDispatch { trapped: task, owner, external_irq, enter })
    }

    /// Says what is done between the beginning and the end of the handling, in order.
    pub fn dispatch_actions(&self, dispatch: &TrapDispatch) -> (actions: Vec<TrapAction>)
        ensures
            actions@ == dispatch_steps(*self, *dispatch),
    {
        let mut actions: Vec<TrapAction> = Vec::new();
        if let Some(context) = dispatch.enter {
            actions.push(TrapAction::Enter { context });
        }
        actions.push(TrapAction::EnableIrqs { state: SIE });
        actions.push(TrapAction::Dispatch { task: dispatch.trapped, frame: self.frame });
        actions.push(TrapAction::DisableIrqs);
        assert(actions@ =~= dispatch_steps(*self, *dispatch));
        actions
    }

    /// Ends the handling of a trap. `irq_state` is the state of interrupts in which the
    /// dispatcher returned: it left them enabled.
    pub fn end_handle(
        &self,
        tasks: &mut SchedTasks,
        dispatch: TrapDispatch,
        handler: usize,
        irq_state: usize,
    ) -> (done: TrapDone)
        requires
            old(tasks).kernel_wf(),
            irq_state == SIE,
            dispatch.owner.is_some() ==> old(tasks).objects@.contains_key(handler) && old(tasks).objects@[handler].execution_task.is_some(),
        ensures
            done.unmask_external == dispatch.external_irq,
            done.leave == (if dispatch.owner.is_some() {
                Some(
                    LeaveContext {
                        leave: old(tasks).objects@[handler].identity(),
                        install: old(tasks).objects@[handler].task.id,
                    },
                )
            } else {
                None
            }),
            dispatch.owner.is_some() ==> object_changed(
                *old(tasks),
                *final(tasks),
                handler,
                (VschedTaskImpl {
                    wake_generation: old(tasks).objects@[handler].wake_generation.wrapping_add(1),
                    trap_owner: 0,
                    execution_task: None,
                    ..old(tasks).objects@[handler]
                }),
            ),
            dispatch.owner.is_none() ==> final(tasks).objects@ == old(tasks).objects@
                && registered(final(tasks).registry) == registered(old(tasks).registry),
            final(tasks).table == old(tasks).table,
            is_frame_call(*old(tasks), *final(tasks), FrameCall::Keep),
            final(tasks).kernel_wf(),
            old(tasks).in_step() ==> final(tasks).in_step(),
    {
        broadcast use vstd::std_specs::btree::group_btree_axioms;

        let mut leave: Option<LeaveContext> = None;
        if dispatch.owner.is_some() {
            let mut object: VschedTaskImpl = *tasks.objects.get(&handler).unwrap();
            leave = Some(object.unbind_execution_task());
            tasks.objects.insert(handler, object);
            proof {
                lemma_object_changed(*old(tasks), *tasks, handler, object);
            }
        }
        TrapDone { unmask_external: dispatch.external_irq, leave }
    }

    /// Makes a handler: a kernel coroutine of the highest priority, which waits until it is
    /// given a trap.
    pub fn new_handler(
        tasks: &mut SchedTasks,
        place: TaskPlacement,
        task: u64,
        coroutine: usize,
    ) -> (handler: usize)
        requires
            old(tasks).kernel_wf(),
            place.addr != 0,
            place.addr % 2 == 0,
            !old(tasks).objects@.contains_key(place.addr),
        ensures
            handler == place.addr,
            final(tasks).objects@ == old(tasks).objects@.insert(
                handler,
                new_task(
                    place,
                    (AxTask { id: task, state: AxTaskState::Blocked }),
                    HIGHEST_PRIORITY,
                    0,
                    true,
                    Some(coroutine),
                    0,
                ),
            ),
            final(tasks).table == old(tasks).table,
            registered(final(tasks).registry) == registered(old(tasks).registry),
            is_frame_call(*old(tasks), *final(tasks), FrameCall::Keep),
            final(tasks).kernel_wf(),
            old(tasks).in_step() ==> final(tasks).in_step(),
    {
        register_task(
            tasks,
            place,
            AxTask { id: task, state: AxTaskState::Blocked },
            HIGHEST_PRIORITY,
            0,
            true,
            Some(coroutine),
            0,
        )
    }
}

/// The coroutine of a handler: it calls the scheduler's function for handlers, with the queue
/// that the scheduler gave.
#[derive(Clone, Copy, Debug, Eq, PartialEq, Structural)]
pub struct TrapHandlerCoroutine {
    pub handler_fn: usize,
    pub queue: usize,
}

/// One of the things that a poll of a handler does.
#[derive(Clone, Copy, Debug, Eq, PartialEq, Structural)]
pub enum HandlerPollAction {
    DisableIrqs,
    /// Call the function with the queue. It mostly leaves by a change of task.
    Call { handler: usize, queue: usize },
    /// Interrupts are as `state` says.
    RestoreIrqs { state: usize },
    /// The poll is over, and the handler is polled again when there are traps.
    Pend,
}

impl TrapHandlerCoroutine {
    /// What a poll does, in order. `irq_state` is the state of interrupts when it begins.
    pub open spec fn poll_steps(self, irq_state: usize) -> Seq<HandlerPollAction> {
        seq![
            HandlerPollAction::DisableIrqs,
            HandlerPollAction::Call { handler: self.handler_fn, queue: self.queue },
            HandlerPollAction::RestoreIrqs { state: irq_state },
            HandlerPollAction::Pend,
        ]
    }

    /// The coroutine of a handler. The shared object has the function.
    pub fn new(handler_fn: usize, queue: usize) -> (coroutine: Self)
        requires
            handler_fn != 0,
        ensures
            coroutine == (TrapHandlerCoroutine { handler_fn, queue }),
    {
        TrapHandlerCoroutine { handler_fn, queue }
    }

    /// Polls the handler: says what is done, in order. The function is called with interrupts
    /// disabled, whatever their state was, and a handler is never finished.
    pub fn poll(&self, irq_state: usize) -> (actions: Vec<HandlerPollAction>)
        ensures
            actions@ == self.poll_steps(irq_state),
    {
        let mut actions: Vec<HandlerPollAction> = Vec::new();
        actions.push(HandlerPollAction::DisableIrqs);
        actions.push(HandlerPollAction::Call { handler: self.handler_fn, queue: self.queue });
        actions.push(HandlerPollAction::RestoreIrqs { state: irq_state });
        actions.push(HandlerPollAction::Pend);
        assert(actions@ =~= self.poll_steps(irq_state));
        actions
    }
}

/// A handler that has handled a trap is as it was before, but for the generation of its
/// wakers: none that is left of the trap can wake it.
pub proof fn law_handler_is_reusable(handler: VschedTaskImpl, addr: usize, owner: VschedTaskImpl)
    requires
        handler.execution_task.is_none(),
        handler.trap_owner == 0,
    ensures
        ({
            let bound = bound_to(handler, addr, owner);
            &&& bound.identity() == owner.task.id
            &&& (VschedTaskImpl {
                wake_generation: bound.wake_generation.wrapping_add(1),
                trap_owner: 0,
                execution_task: None,
                ..bound
            }) == (VschedTaskImpl {
                wake_generation: handler.wake_generation.wrapping_add(1),
                ..handler
            })
        }),
        handler.wake_generation.wrapping_add(1) != handler.wake_generation,
{
}

/// The task as a thread (`promote`), or as a coroutine, which has no stack of its own.
pub open spec fn converted(task: VschedTaskImpl, promote: bool) -> VschedTaskImpl {
    if promote {
        VschedTaskImpl { is_coroutine: false, ..task }
    } else {
        VschedTaskImpl { is_coroutine: true, thread_stack_ptr: 0, ..task }
    }
}

/// Makes a thread of the current task's coroutine (`promote`), or a coroutine of its
/// thread. `current` is its task ID or its address, or 0. Returns whether it did: a task that
/// is one already stays as it is.
pub fn toggle_handler(tasks: &mut SchedTasks, current: usize, promote: bool) -> (toggled: bool)
    requires
        old(tasks).kernel_wf(),
        old(tasks).resolve(current) matches Some(addr) ==> old(tasks).objects@.contains_key(addr),
    ensures
        toggled == (old(tasks).resolve(current) matches Some(addr)
            && old(tasks).objects@[addr].is_coroutine == promote),
        toggled ==> ({
            let addr = old(tasks).resolve(current).unwrap();
            object_changed(
                *old(tasks),
                *final(tasks),
                addr,
                converted(old(tasks).objects@[addr], promote),
            )
        }),
        !toggled ==> final(tasks).objects@ == old(tasks).objects@ && registered(
            final(tasks).registry,
        ) == registered(old(tasks).registry),
        final(tasks).table == old(tasks).table,
        is_frame_call(*old(tasks), *final(tasks), FrameCall::Keep),
        final(tasks).kernel_wf(),
        old(tasks).in_step() ==> final(tasks).in_step(),
{
    broadcast use vstd::std_specs::btree::group_btree_axioms;

    let addr: usize = match direct_task(tasks, current) {
        Some(addr) => addr,
        None => {
            return false;
        },
    };
    let mut object: VschedTaskImpl = *tasks.objects.get(&addr).unwrap();
    let is_coro: bool = object.is_coroutine;
    if promote {
        if !is_coro {
            return false;
        }
        object.is_coroutine = false;
    } else {
        if is_coro {
            return false;
        }
        object.is_coroutine = true;
        object.thread_stack_ptr = 0;
    }
    tasks.objects.insert(addr, object);
    proof {
        lemma_object_changed(*old(tasks), *tasks, addr, object);
    }
    true
}

/// Whether a trap is a user scheduler that enters the kernel. If it is, says what it came
/// from: 1 for user space, 0 for the kernel.
pub fn into_kernel_request(scause: u64, a7: usize, sstatus: usize) -> (privilege: Option<usize>)
    ensures
        privilege == (if scause == SCAUSE_USER_ECALL && a7 == VSCHED2_INTO_KERNEL_SYSNO {
            Some(
                if (sstatus / 256) % 2 == 0 {
                    1usize
                } else {
                    0usize
                },
            )
        } else {
            None
        }),
{
    if scause != SCAUSE_USER_ECALL || a7 != VSCHED2_INTO_KERNEL_SYSNO {
        return None;
    }
    assert(((sstatus >> 8) & 1) == (sstatus / 256) % 2) by (bit_vector);
    let previous: usize = (sstatus >> 8) & 1;
    if previous == 0 {
        Some(1)
    } else {
        Some(0)
    }
}

/// What the entry of a trap does before it goes to the scheduler. The trap is handled later,
/// and its source must not come again until then.
#[derive(Clone, Copy, Debug, Eq, PartialEq, Structural)]
pub struct TrapEntry {
    /// Whether the timer is stopped. Its handler sets it again.
    pub disarm_timer: bool,
    /// Whether external interrupts are disabled on this CPU. They are enabled again when the
    /// trap has been handled.
    pub mask_external: bool,
    /// Whether the pending software interrupt is cleared on this CPU.
    pub clear_software: bool,
    /// The frame of the task that trapped, by address, or 0 if no task did.
    pub frame: usize,
    /// The task that trapped, by its task ID or its address, or 0.
    pub task: usize,
    /// Whether the stack is taken from the CPU and handed to the task: an interrupt came
    /// while it was using it.
    pub take_stack: bool,
}

/// Whether a trap is an interrupt.
pub open spec fn is_interrupt(frame: UserTrapFrame) -> bool {
    frame.scause as u64 / 0x8000000000000000 == 1
}

/// Enters a trap: keeps what the CPU held in the frame of the task that trapped: `task`, or
/// else the current one. A task that has no frame yet gets the one at `fresh`.
pub fn vsched2_trap_entry(
    tasks: &mut SchedTasks,
    frame: UserTrapFrame,
    fresh: usize,
    task: usize,
    current: usize,
) -> (entry: TrapEntry)
    requires
        old(tasks).kernel_wf(),
        old(tasks).resolve(
            if task != 0 {
                task
            } else {
                current
            },
        ) matches Some(addr) ==> old(tasks).objects@.contains_key(addr) && (
        old(tasks).objects@[addr].trap_frame == 0 ==> is_fresh(*old(tasks), fresh)),
    ensures
        entry == (TrapEntry {
            disarm_timer: frame.scause as u64 == SCAUSE_TIMER,
            mask_external: frame.scause as u64 == SCAUSE_EXTERNAL,
            clear_software: frame.scause as u64 == SCAUSE_SOFTWARE,
            frame: match old(tasks).resolve(entry.task) {
                Some(addr) => frame_place(old(tasks).objects@[addr], fresh),
                None => 0,
            },
            task: if task != 0 {
                task
            } else {
                current
            },
            take_stack: is_interrupt(frame) && (old(tasks).resolve(entry.task) matches Some(addr)
                && old(tasks).objects@[addr].gives_stack_up()),
        }),
        old(tasks).resolve(entry.task) is None ==> {
            &&& final(tasks).objects@ == old(tasks).objects@
            &&& is_frame_call(*old(tasks), *final(tasks), FrameCall::Keep)
        },
        old(tasks).resolve(entry.task) matches Some(addr) ==> {
            &&& final(tasks).objects@ == old(tasks).objects@.insert(
                addr,
                (VschedTaskImpl { trap_frame: entry.frame, ..old(tasks).objects@[addr] }),
            )
            &&& final(tasks).frames@ == old(tasks).frames@.insert(entry.frame, frame)
            &&& is_frame_call(*old(tasks), *final(tasks), FrameCall::Save { task: addr, frame })
        },
        registered(final(tasks).registry) == registered(old(tasks).registry),
        final(tasks).table == old(tasks).table,
        final(tasks).kernel_wf(),
        old(tasks).in_step() ==> final(tasks).in_step(),
{
    broadcast use vstd::std_specs::btree::group_btree_axioms;

    let cause: u64 = frame.scause as u64;
    assert(cause >> 63 == cause / 0x8000000000000000) by (bit_vector);
    let disarm_timer: bool = cause == SCAUSE_TIMER;
    let mask_external: bool = cause == SCAUSE_EXTERNAL;
    let clear_software: bool = cause == SCAUSE_SOFTWARE;
    let mut task: usize = task;
    if task == 0 {
        task = current;
    }
    let mut at: usize = 0;
    let mut take_stack: bool = false;
    if let Some(addr) = direct_task(tasks, task) {
        let mut object: VschedTaskImpl = *tasks.objects.get(&addr).unwrap();
        take_stack = cause >> 63 == 1 && object.takes_current_stack();
        at = save_frame(tasks, addr, &mut object, frame, fresh);
    }
    TrapEntry { disarm_timer, mask_external, clear_software, frame: at, task, take_stack }
}

/// Keeps `object` at `addr`, and `frame` in its frame.
fn save_frame(
    tasks: &mut SchedTasks,
    addr: usize,
    object: &mut VschedTaskImpl,
    frame: UserTrapFrame,
    fresh: usize,
) -> (at: usize)
    requires
        old(tasks).kernel_wf(),
        old(tasks).objects@.contains_key(addr),
        old(object).trap_frame == old(tasks).objects@[addr].trap_frame,
        old(object).shared_task_key == old(tasks).objects@[addr].shared_task_key,
        old(object).is_kernel == old(tasks).objects@[addr].is_kernel,
        old(object).trap_frame == 0 ==> is_fresh(*old(tasks), fresh),
    ensures
        at == frame_place(*old(object), fresh),
        *final(object) == (VschedTaskImpl { trap_frame: at, ..*old(object) }),
        final(tasks).objects@ == old(tasks).objects@.insert(addr, *final(object)),
        final(tasks).frames@ == old(tasks).frames@.insert(at, frame),
        is_frame_call(*old(tasks), *final(tasks), FrameCall::Save { task: addr, frame }),
        registered(final(tasks).registry) == registered(old(tasks).registry),
        final(tasks).table == old(tasks).table,
        final(tasks).kernel_wf(),
        old(tasks).in_step() ==> final(tasks).in_step(),
{
    broadcast use vstd::std_specs::btree::group_btree_axioms;

    if object.trap_frame == 0 {
        object.trap_frame = fresh;
    }
    let at: usize = object.trap_frame;
    tasks.frames.insert(at, frame);
    tasks.objects.insert(addr, *object);
    proof {
        lemma_frame_saved(*old(tasks), *tasks, addr, *object, frame);
        lemma_registry_kept(*old(tasks), *tasks, addr, *object);
    }
    at
}

/// Hands the stack that was taken from the CPU to the kernel task `task`, which an interrupt
/// found using it.
pub fn hand_over_stack(tasks: &mut SchedTasks, task: usize, stack: usize)
    requires
        old(tasks).kernel_wf(),
        stack != 0,
        old(tasks).resolve(task) matches Some(addr) && {
            let object = old(tasks).objects@[addr];
            &&& old(tasks).objects@.contains_key(addr)
            &&& object.gives_stack_up()
            &&& object.shared_task_key is None
            &&& object.is_scheduler_wait_context || !object.resume_to_coroutine
        },
    ensures
        ({
            let addr = old(tasks).resolve(task).unwrap();
            let object = old(tasks).objects@[addr];
            object_changed(
                *old(tasks),
                *final(tasks),
                addr,
                (if object.is_scheduler_wait_context {
                    VschedTaskImpl { thread_stack_ptr: stack, ..object }
                } else {
                    object.promoted(stack)
                }),
            )
        }),
        final(tasks).table.slots@ == old(tasks).table.slots@,
        is_frame_call(*old(tasks), *final(tasks), FrameCall::Keep),
        final(tasks).kernel_wf(),
        old(tasks).in_step() ==> final(tasks).in_step(),
{
    broadcast use vstd::std_specs::btree::group_btree_axioms;

    let addr: usize = direct_task(tasks, task).unwrap();
    let mut object: VschedTaskImpl = *tasks.objects.get(&addr).unwrap();
    object.prepare_interrupted_kernel_context(&mut tasks.table, stack);
    tasks.objects.insert(addr, object);
    proof {
        lemma_same_slots(old(tasks).table, tasks.table);
        lemma_object_changed(*old(tasks), *tasks, addr, object);
    }
}

/// Enters the scheduler for a task that yields: keeps `frame` in the frame of the current
/// task, which gets the one at `fresh` if it has none yet. A thread keeps the stack that it was
/// using, `stack`, which was taken from the CPU; that of a coroutine is left to the scheduler,
/// and `stack` is not looked at.
pub fn vsched_yield_entry(
    tasks: &mut SchedTasks,
    frame: UserTrapFrame,
    fresh: usize,
    current: usize,
    stack: usize,
)
    requires
        old(tasks).kernel_wf(),
        old(tasks).resolve(current) matches Some(addr) ==> {
            let object = old(tasks).objects@[addr];
            &&& old(tasks).objects@.contains_key(addr)
            &&& object.trap_frame == 0 ==> is_fresh(*old(tasks), fresh)
            &&& !object.is_coroutine ==> stack != 0 && (object.thread_stack_ptr == 0
                || object.thread_stack_ptr == stack)
        },
    ensures
        old(tasks).resolve(current) is None ==> {
            &&& final(tasks).objects@ == old(tasks).objects@
            &&& is_frame_call(*old(tasks), *final(tasks), FrameCall::Keep)
        },
        old(tasks).resolve(current) matches Some(addr) ==> {
            let object = old(tasks).objects@[addr];
            let at = frame_place(object, fresh);
            &&& final(tasks).objects@ == old(tasks).objects@.insert(
                addr,
                VschedTaskImpl {
                    trap_frame: at,
                    thread_stack_ptr: if object.is_coroutine {
                        object.thread_stack_ptr
                    } else {
                        stack
                    },
                    ..object
                },
            )
            &&& final(tasks).frames@ == old(tasks).frames@.insert(at, frame)
            &&& is_frame_call(*old(tasks), *final(tasks), FrameCall::Save { task: addr, frame })
        },
        registered(final(tasks).registry) == registered(old(tasks).registry),
        final(tasks).table == old(tasks).table,
        final(tasks).kernel_wf(),
        old(tasks).in_step() ==> final(tasks).in_step(),
{
    broadcast use vstd::std_specs::btree::group_btree_axioms;

    if let Some(addr) = direct_task(tasks, current) {
        let mut object: VschedTaskImpl = *tasks.objects.get(&addr).unwrap();
        if !object.is_coroutine {
            object.detach_thread_stack_for_resched(stack);
        }
        save_frame(tasks, addr, &mut object, frame, fresh);
    }
}

/// A coroutine that blocks on a future keeps its stack: it becomes a thread, and a thread that
/// yields gets the stack that it was using. When it goes on and is a coroutine again, it is as
/// it was, but for the frame.
pub proof fn law_blocked_coroutine_keeps_its_stack(
    task: VschedTaskImpl,
    frame_addr: usize,
    stack: usize,
)
    requires
        task.is_coroutine,
        task.thread_stack_ptr == 0,
    ensures
        ({
            let thread = converted(task, true);
            let saved = VschedTaskImpl {
                trap_frame: frame_addr,
                thread_stack_ptr: stack,
                ..thread
            };
            &&& !thread.is_coroutine
            &&& converted(saved, false) == (VschedTaskImpl { trap_frame: frame_addr, ..task })
        }),
{
}

} // verus!
