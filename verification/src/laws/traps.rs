//! Traps: how they are entered, who handles them, and what they ask for.

use vstd::prelude::*;

use crate::laws::order::{
    in_order, in_order_within, lemma_in_one, lemma_in_parts, lemma_in_three, lemma_order_of_parts,
};
use crate::sched::registry::{SchedTasks, TaskPlacement};
use crate::sched::task::{AxTask, EnterContext, VschedTaskImpl};
use crate::sched::trap::{
    clear_last_trapped_user_task, effective_user_owner, get_last_trapped_user_task, hand_over_stack,
    into_kernel_request, owner_chain_ok, set_last_trapped_user_task, toggle_handler, user_owner,
    vsched2_trap_entry, vsched_yield_entry, HandlerPollAction, LastTrapped, TrapAction,
    TrapDispatch, TrapDone, TrapEntry, TrapHandlerCoroutine, VschedTrapInfoImpl,
};
use crate::sched::trapframe::{UserGeneralRegs, UserTrapFrame};
use crate::state::AxTaskState;
use crate::syscall::context::UserContext;
use crate::syscall::trap::{
    begin_syscall, fault_fixed, fault_signal, fault_subject, new_user_task, signal_subject,
    syscall_actions, syscall_steps, user_task_round, vsched_trap_dispatcher, write_back,
    ReturnReason, SyscallAction, TrapSubject, TrapWork, UserTaskAction, UserTaskEvent,
    UserTaskPhase, UserWork,
};

verus! {

/// Whether the highest bit of a cause is set: it is an interrupt's.
pub open spec fn is_irq(frame: UserTrapFrame) -> bool {
    frame.scause >= 0x8000000000000000
}

/// A trap of a task asks for what its cause says: an interrupt goes to the platform with its
/// whole cause, 8 is a system call, which is carried out with the task's registers and returns
/// behind the call, 12, 13 and 15 are accesses of memory by an instruction, a read and a write,
/// and every other cause is a signal. Without a frame there is nothing to do.
pub proof fn law_trap_asks_for_what_its_cause_says(
    frame: Option<UserTrapFrame>,
    sstatus: usize,
    work: TrapWork,
)
    requires
        call_ensures(vsched_trap_dispatcher, (frame, sstatus), work),
        frame matches Some(f) ==> f.sepc + 4 <= usize::MAX,
    ensures
        frame is None <==> work is Nothing,
        frame matches Some(f) ==> {
            &&& work is Interrupt <==> is_irq(f)
            &&& work matches TrapWork::Interrupt { scause } ==> scause == f.scause
            &&& work is Syscall <==> f.scause == 8
            &&& work matches TrapWork::Syscall { context } ==> {
                &&& context.regs == f.regs
                &&& context.sepc == f.sepc + 4
                &&& context.sstatus == sstatus
            }
            &&& work is PageFault <==> f.scause == 12 || f.scause == 13 || f.scause == 15
            &&& work matches TrapWork::PageFault { vaddr, flags } ==> {
                &&& vaddr == f.stval
                &&& flags.user
                &&& flags.execute <==> f.scause == 12
                &&& flags.read <==> f.scause == 13
                &&& flags.write <==> f.scause == 15
            }
            &&& work matches TrapWork::Signal { signo } ==> {
                &&& signo == 11 <==> f.scause == 1 || f.scause == 5 || f.scause == 7
                &&& signo == 4 <==> f.scause == 2
                &&& signo == 7 <==> f.scause == 0 || f.scause == 4 || f.scause == 6
                &&& signo == 11 || signo == 4 || signo == 7 || signo == 5
            }
        },
{
}

/// The order of what is done for a system call.
pub open spec fn syscall_rank(action: SyscallAction) -> int {
    match action {
        SyscallAction::RememberTask => 0,
        SyscallAction::SetRunning => 1,
        SyscallAction::EnterScope => 2,
        SyscallAction::Handle => 3,
        SyscallAction::LeaveScope => 4,
        SyscallAction::WriteBack => 5,
    }
}

/// A system call is remembered, runs under a running task, in the scope of its process exactly
/// if it is a thread's, and its results are written back last.
pub proof fn law_system_call_is_carried_out_in_order(
    is_thread: bool,
    actions: Vec<SyscallAction>,
    action: SyscallAction,
)
    requires
        call_ensures(syscall_actions, (is_thread,), actions),
    ensures
        actions@.contains(action) <==> (action is EnterScope ==> is_thread),
        in_order(actions@, |a: SyscallAction| syscall_rank(a)),
{
    let rank = |a: SyscallAction| syscall_rank(a);
    let before = seq![SyscallAction::RememberTask, SyscallAction::SetRunning];
    let scope = if is_thread {
        seq![SyscallAction::EnterScope]
    } else {
        Seq::<SyscallAction>::empty()
    };
    let last = seq![
        SyscallAction::Handle,
        SyscallAction::LeaveScope,
        SyscallAction::WriteBack,
    ];
    assert(syscall_steps(is_thread) == before + scope + last);
    lemma_in_parts(before + scope, last, action);
    lemma_in_parts(before, scope, action);
    crate::laws::order::lemma_in_two(
        SyscallAction::RememberTask,
        SyscallAction::SetRunning,
        action,
    );
    lemma_in_one(SyscallAction::EnterScope, action);
    lemma_in_three(
        SyscallAction::Handle,
        SyscallAction::LeaveScope,
        SyscallAction::WriteBack,
        action,
    );
    assert(in_order_within(before, rank, 0, 2));
    assert(in_order_within(scope, rank, 2, 3));
    assert(in_order_within(last, rank, 3, 6));
    lemma_order_of_parts(before, scope, rank, 0, 2, 3);
    lemma_order_of_parts(before + scope, last, rank, 0, 3, 6);
}

/// A task runs while its system call is carried out, and nothing else of it changes.
pub proof fn law_system_call_has_its_task_run(task: &mut VschedTaskImpl)
    requires
        call_ensures(begin_syscall, (task,), ()),
    ensures
        final(task).task.state is Running,
        *final(task) == (VschedTaskImpl {
            task: AxTask { state: final(task).task.state, ..old(task).task },
            ..*old(task)
        }),
{
}

/// The results of a system call reach the frame of the task that made it, and no other.
pub proof fn law_results_reach_the_calling_task(
    tasks: &mut SchedTasks,
    task: usize,
    context: UserContext,
    other: usize,
)
    requires
        call_ensures(write_back, (tasks, task, &context), ()),
        old(tasks).resolve(task) matches Some(addr) && old(tasks).frame_of(addr) is Some,
        Some(other) != old(tasks).resolve(task),
    ensures
        ({
            let addr = old(tasks).resolve(task).unwrap();
            let before = old(tasks).frame_of(addr).unwrap();
            &&& final(tasks).frame_of(addr) matches Some(after)
            &&& after.sepc == context.sepc
            &&& after.sstatus == context.sstatus
            &&& after.regs == UserGeneralRegs {
                a0: context.regs.a0,
                a1: context.regs.a1,
                sp: context.regs.sp,
                ..before.regs
            }
            &&& after.scause == before.scause
            &&& after.stval == before.stval
            &&& after.kind == before.kind
        }),
        final(tasks).frame_of(other) == old(tasks).frame_of(other),
        final(tasks).objects@ == old(tasks).objects@,
{
}

/// A signal goes to the task that trapped if it is a thread of a process, and otherwise to the
/// user task that was handled last, if there is one.
pub proof fn law_signal_finds_a_thread(is_thread: bool, last: usize, subject: TrapSubject)
    requires
        call_ensures(signal_subject, (is_thread, last), subject),
    ensures
        is_thread || last == 0 ==> subject == TrapSubject::Trapped,
        !is_thread && last != 0 ==> subject == TrapSubject::LastUser,
{
}

/// A page fault is resolved for the first thread among the task that trapped, the one that runs
/// and the user task that was handled last.
pub proof fn law_fault_finds_a_thread(
    trapped: bool,
    current: bool,
    last: usize,
    last_is_thread: bool,
    subject: TrapSubject,
)
    requires
        call_ensures(fault_subject, (trapped, current, last, last_is_thread), subject),
    ensures
        subject == TrapSubject::Trapped <==> trapped,
        subject == TrapSubject::Current <==> !trapped && current,
        subject == TrapSubject::LastUser <==> !trapped && !current && last != 0 && last_is_thread,
{
}

/// A page fault is resolved if the address space resolved it, or, for the user task that was
/// handled last, if the page is there already; otherwise it is the signal 11.
pub proof fn law_unresolved_fault_is_a_signal(
    subject: TrapSubject,
    mapped: bool,
    handled: bool,
    fixed: bool,
    signo: Option<u8>,
)
    requires
        call_ensures(fault_fixed, (subject, mapped, handled), fixed),
        call_ensures(fault_signal, (fixed,), signo),
    ensures
        subject == TrapSubject::Nobody ==> !fixed,
        subject == TrapSubject::LastUser ==> fixed == (mapped || handled),
        subject == TrapSubject::Trapped || subject == TrapSubject::Current ==> fixed == handled,
        signo is None <==> fixed,
        signo matches Some(s) ==> s == 11,
{
}

/// A new user task writes its ID exactly if it was asked to.
pub proof fn law_new_task_writes_its_id(
    at: usize,
    tid: u32,
    first: (UserTaskPhase, UserTaskAction),
)
    requires
        call_ensures(new_user_task, (at, tid), first),
    ensures
        at != 0 ==> first == (UserTaskPhase::WritingTid, UserTaskAction::WriteTid { at, tid }),
        at == 0 ==> first == (UserTaskPhase::AskingExit, UserTaskAction::AskPendingExit),
{
}

/// A user task runs in user space until it is to exit; each return is first counted as the
/// kernel's time.
pub proof fn law_user_task_runs_until_it_exits(
    yes: bool,
    reason: ReturnReason,
    asked: (UserTaskPhase, UserTaskAction),
    returned: (UserTaskPhase, UserTaskAction),
)
    requires
        call_ensures(
            user_task_round,
            (UserTaskPhase::AskingExit, UserTaskEvent::PendingExit { yes }),
            asked,
        ),
        call_ensures(
            user_task_round,
            (UserTaskPhase::InUser, UserTaskEvent::Returned { reason }),
            returned,
        ),
    ensures
        yes ==> asked == (UserTaskPhase::Over, UserTaskAction::Finish),
        !yes ==> asked == (UserTaskPhase::InUser, UserTaskAction::RunUser),
        returned == (UserTaskPhase::EnteringKernel { reason }, UserTaskAction::TimerToKernel),
{
}

/// A user task that left user space is worked for as the reason says: its system call is
/// handled, its page fault resolved, an interrupt needs nothing more, and everything else is a
/// signal.
pub proof fn law_return_is_worked_for(
    reason: ReturnReason,
    next: (UserTaskPhase, UserTaskAction),
)
    requires
        call_ensures(
            user_task_round,
            (UserTaskPhase::EnteringKernel { reason }, UserTaskEvent::Done),
            next,
        ),
    ensures
        reason is Interrupt ==> next == (
            UserTaskPhase::Unblocking,
            UserTaskAction::UnblockNextSignal,
        ),
        reason is Syscall ==> next == (
            UserTaskPhase::Working,
            UserTaskAction::Work { work: UserWork::HandleSyscall },
        ),
        reason matches ReturnReason::PageFault { vaddr, flags } ==> next == (
            UserTaskPhase::Resolving,
            UserTaskAction::Work { work: UserWork::HandlePageFault { vaddr, flags } },
        ),
        !(reason is Interrupt || reason is Syscall || reason is PageFault) ==> {
            &&& next.0 is Working
            &&& next.1 == (UserTaskAction::Work {
                work: UserWork::Signal {
                    signo: if reason is Misaligned {
                        7
                    } else if reason is IllegalInstruction {
                        4
                    } else if reason is Unknown {
                        11
                    } else {
                        5
                    },
                },
            })
        },
{
}

/// A page fault that was not resolved is the signal 11. When the work is done a signal is
/// unblocked; unless one was, signals are taken until there are none. Then the time is the
/// user's again, the interruption is forgotten, and the task is asked whether it is to exit.
pub proof fn law_signals_are_taken_before_user_space(
    yes: bool,
    fixed: (UserTaskPhase, UserTaskAction),
    worked: (UserTaskPhase, UserTaskAction),
    unblocked: (UserTaskPhase, UserTaskAction),
    checked: (UserTaskPhase, UserTaskAction),
    timed: (UserTaskPhase, UserTaskAction),
    cleared: (UserTaskPhase, UserTaskAction),
    written: (UserTaskPhase, UserTaskAction),
)
    requires
        call_ensures(
            user_task_round,
            (UserTaskPhase::Resolving, UserTaskEvent::Fixed { yes }),
            fixed,
        ),
        call_ensures(user_task_round, (UserTaskPhase::Working, UserTaskEvent::Done), worked),
        call_ensures(
            user_task_round,
            (UserTaskPhase::Unblocking, UserTaskEvent::Unblocked { yes }),
            unblocked,
        ),
        call_ensures(
            user_task_round,
            (UserTaskPhase::CheckingSignals, UserTaskEvent::Checked { taken: yes }),
            checked,
        ),
        call_ensures(user_task_round, (UserTaskPhase::LeavingKernel, UserTaskEvent::Done), timed),
        call_ensures(
            user_task_round,
            (UserTaskPhase::ClearingInterrupt, UserTaskEvent::Done),
            cleared,
        ),
        call_ensures(user_task_round, (UserTaskPhase::WritingTid, UserTaskEvent::Done), written),
    ensures
        yes ==> fixed == (UserTaskPhase::Unblocking, UserTaskAction::UnblockNextSignal),
        !yes ==> fixed == (
            UserTaskPhase::Working,
            UserTaskAction::Work { work: UserWork::Signal { signo: 11 } },
        ),
        worked == (UserTaskPhase::Unblocking, UserTaskAction::UnblockNextSignal),
        yes ==> unblocked == (UserTaskPhase::LeavingKernel, UserTaskAction::TimerToUser),
        !yes ==> unblocked == (UserTaskPhase::CheckingSignals, UserTaskAction::CheckSignals),
        yes ==> checked == (UserTaskPhase::CheckingSignals, UserTaskAction::CheckSignals),
        !yes ==> checked == (UserTaskPhase::LeavingKernel, UserTaskAction::TimerToUser),
        timed == (UserTaskPhase::ClearingInterrupt, UserTaskAction::ClearInterrupt),
        cleared == (UserTaskPhase::AskingExit, UserTaskAction::AskPendingExit),
        written == (UserTaskPhase::AskingExit, UserTaskAction::AskPendingExit),
{
}

/// The user task that was handled last on a CPU is found there until it is forgotten or another
/// is noted, and other CPUs have their own. A handler has the task whose trap it handles.
pub proof fn law_last_user_task_is_of_its_cpu(
    last: &mut LastTrapped,
    cleared: &mut LastTrapped,
    tasks: SchedTasks,
    cpu: usize,
    task: usize,
    current: usize,
    found: usize,
    other: int,
)
    requires
        cpu < old(last).tasks@.len(),
        cpu < old(cleared).tasks@.len(),
        0 <= other < old(last).tasks@.len(),
        other < old(cleared).tasks@.len(),
        call_ensures(set_last_trapped_user_task, (last, cpu, task), ()),
        call_ensures(clear_last_trapped_user_task, (cleared, cpu, task), ()),
        call_ensures(get_last_trapped_user_task, (&*last, &tasks, cpu, current), found),
    ensures
        final(last).tasks@[cpu as int] == task,
        other != cpu ==> final(last).tasks@[other] == old(last).tasks@[other],
        old(cleared).tasks@[cpu as int] == task ==> final(cleared).tasks@[cpu as int] == 0,
        old(cleared).tasks@[cpu as int] != task ==> final(cleared).tasks@ == old(cleared).tasks@,
        other != cpu ==> final(cleared).tasks@[other] == old(cleared).tasks@[other],
        (tasks.resolve(current) matches Some(addr) && tasks.objects@[addr].trap_owner != 0)
            ==> found == tasks.objects@[tasks.resolve(current).unwrap()].trap_owner,
        !(tasks.resolve(current) matches Some(addr) && tasks.objects@[addr].trap_owner != 0)
            ==> found == old(last).tasks@[cpu as int],
{
}

/// The trap of a user task is handled for that task; the trap of a kernel task for the owner of
/// what it handles, if any; and what is nobody's is handled for nobody.
pub proof fn law_trap_is_handled_for_its_user_task(
    tasks: SchedTasks,
    task: usize,
    owner: Option<usize>,
)
    requires
        owner_chain_ok(tasks, task, 8),
        call_ensures(effective_user_owner, (&tasks, task), owner),
    ensures
        tasks.resolve(task) is None ==> owner is None,
        tasks.resolve(task) matches Some(addr) ==> {
            &&& !tasks.objects@[addr].is_kernel ==> owner == Some(addr)
            &&& tasks.objects@[addr].is_kernel && tasks.resolve(
                tasks.objects@[addr].trap_owner,
            ) is None ==> owner is None
            &&& (tasks.objects@[addr].is_kernel && (tasks.resolve(
                tasks.objects@[addr].trap_owner,
            ) matches Some(next) && !tasks.objects@[next].is_kernel)) ==> owner == tasks.resolve(
                tasks.objects@[addr].trap_owner,
            )
        },
        owner matches Some(o) ==> tasks.objects@.contains_key(o) && !tasks.objects@[o].is_kernel,
{
    reveal_with_fuel(user_owner, 3);
    reveal_with_fuel(owner_chain_ok, 3);
    crate::sched::trap::law_owner_is_a_user_task(tasks, task, 8);
}

/// A handler takes over the identity of the user task that a trap concerns, and no other does;
/// an external interrupt is told apart from all else.
pub proof fn law_handler_acts_for_the_owner(
    info: VschedTrapInfoImpl,
    tasks: &mut SchedTasks,
    dispatcher: usize,
    task: Option<usize>,
    handler: usize,
    cpu: usize,
    dispatch: Option<TrapDispatch>,
    owner: Option<usize>,
)
    requires
        task matches Some(t) ==> call_ensures(effective_user_owner, (&*tasks, t), owner),
        task is None ==> owner is None,
        call_ensures(
            VschedTrapInfoImpl::begin_handle,
            (&info, tasks, dispatcher, task, handler, cpu),
            dispatch,
        ),
    ensures
        dispatch is None <==> dispatcher == 0,
        dispatch matches Some(d) ==> {
            &&& d.trapped == task
            &&& d.owner == owner
            &&& d.external_irq == (info.frame.scause == 0x8000000000000009)
            &&& d.enter is Some <==> owner is Some
            &&& owner matches Some(o) ==> {
                let user = old(tasks).objects@[o];
                let bound = final(tasks).objects@[handler];
                &&& d.enter == Some(EnterContext { task: user.task.id, install_current: true })
                &&& bound.execution_task == Some(user.task.id)
                &&& user.shared_task_key is None ==> bound.trap_owner == o
                &&& bound.task == old(tasks).objects@[handler].task
                &&& bound.wake_generation == old(tasks).objects@[handler].wake_generation
            }
        },
        owner is None ==> final(tasks).objects@ == old(tasks).objects@,
        final(tasks).table == old(tasks).table,
{
}

/// A handler that is done has its own identity back, and no waker that is left of the trap can
/// wake it; external interrupts are unmasked exactly after one.
pub proof fn law_handler_is_itself_again(
    info: VschedTrapInfoImpl,
    tasks: &mut SchedTasks,
    dispatch: TrapDispatch,
    handler: usize,
    irq_state: usize,
    done: TrapDone,
)
    requires
        call_ensures(
            VschedTrapInfoImpl::end_handle,
            (&info, tasks, dispatch, handler, irq_state),
            done,
        ),
    ensures
        done.unmask_external == dispatch.external_irq,
        done.leave is Some <==> dispatch.owner is Some,
        dispatch.owner is Some ==> {
            let after = final(tasks).objects@[handler];
            let before = old(tasks).objects@[handler];
            &&& after.execution_task is None
            &&& after.trap_owner == 0
            &&& after.wake_generation != before.wake_generation
            &&& after.task == before.task
            &&& done.leave matches Some(leave)
            &&& leave.install == before.task.id
            &&& before.execution_task matches Some(id) ==> leave.leave == id
        },
        dispatch.owner is None ==> final(tasks).objects@ == old(tasks).objects@,
{
}

/// The order in which a trap is handled.
pub open spec fn handle_rank(action: TrapAction) -> int {
    match action {
        TrapAction::Enter { .. } => 0,
        TrapAction::EnableIrqs { .. } => 1,
        TrapAction::Dispatch { .. } => 2,
        TrapAction::DisableIrqs => 3,
        TrapAction::UnmaskExternal => 4,
        TrapAction::Leave { .. } => 5,
    }
}

/// The dispatcher is called for the task that trapped, with what the CPU held then, and with
/// interrupts enabled; afterwards external interrupts are unmasked before the handler is itself
/// again.
pub proof fn law_trap_is_dispatched_in_order(
    info: VschedTrapInfoImpl,
    dispatch: TrapDispatch,
    actions: Vec<TrapAction>,
    done: TrapDone,
    after: Vec<TrapAction>,
    action: TrapAction,
)
    requires
        call_ensures(VschedTrapInfoImpl::dispatch_actions, (&info, &dispatch), actions),
        call_ensures(TrapDone::actions, (&done,), after),
    ensures
        in_order(actions@ + after@, |a: TrapAction| handle_rank(a)),
        actions@.contains(action) <==> match action {
            TrapAction::Enter { context } => dispatch.enter == Some(context),
            TrapAction::EnableIrqs { state } => state == 2,
            TrapAction::Dispatch { task, frame } => task == dispatch.trapped && frame
                == info.frame,
            TrapAction::DisableIrqs => true,
            _ => false,
        },
        after@.contains(action) <==> match action {
            TrapAction::UnmaskExternal => done.unmask_external,
            TrapAction::Leave { context } => done.leave == Some(context),
            _ => false,
        },
{
    let rank = |a: TrapAction| handle_rank(a);
    let enter = match dispatch.enter {
        Some(context) => seq![TrapAction::Enter { context }],
        None => Seq::<TrapAction>::empty(),
    };
    let middle = seq![
        TrapAction::EnableIrqs { state: 2 },
        TrapAction::Dispatch { task: dispatch.trapped, frame: info.frame },
        TrapAction::DisableIrqs,
    ];
    assert(actions@ == enter + middle);
    lemma_in_parts(enter, middle, action);
    if let Some(context) = dispatch.enter {
        lemma_in_one(TrapAction::Enter { context }, action);
    } else {
        lemma_in_one(action, action);
    }
    lemma_in_three(
        TrapAction::EnableIrqs { state: 2 },
        TrapAction::Dispatch { task: dispatch.trapped, frame: info.frame },
        TrapAction::DisableIrqs,
        action,
    );
    let unmask = if done.unmask_external {
        seq![TrapAction::UnmaskExternal]
    } else {
        Seq::<TrapAction>::empty()
    };
    let leave = match done.leave {
        Some(context) => seq![TrapAction::Leave { context }],
        None => Seq::<TrapAction>::empty(),
    };
    assert(after@ == unmask + leave);
    lemma_in_parts(unmask, leave, action);
    lemma_in_one(TrapAction::UnmaskExternal, action);
    if let Some(context) = done.leave {
        lemma_in_one(TrapAction::Leave { context }, action);
    }
    assert(in_order_within(enter, rank, 0, 1));
    assert(in_order_within(middle, rank, 1, 4));
    assert(in_order_within(unmask, rank, 4, 5));
    assert(in_order_within(leave, rank, 5, 6));
    lemma_order_of_parts(enter, middle, rank, 0, 1, 4);
    lemma_order_of_parts(unmask, leave, rank, 4, 5, 6);
    lemma_order_of_parts(actions@, after@, rank, 0, 4, 6);
}

/// A new handler is a kernel coroutine of the highest priority that waits.
pub proof fn law_new_handler_waits(
    tasks: &mut SchedTasks,
    place: TaskPlacement,
    task: u64,
    coroutine: usize,
    handler: usize,
)
    requires
        call_ensures(
            VschedTrapInfoImpl::new_handler,
            (tasks, place, task, coroutine),
            handler,
        ),
    ensures
        handler == place.addr,
        ({
            let made = final(tasks).objects@[handler];
            &&& made.is_kernel
            &&& made.is_coroutine
            &&& made.task.id == task
            &&& made.task.state == AxTaskState::Blocked
            &&& made.priority == 0
            &&& made.pid == 0
            &&& made.trap_frame == 0
            &&& made.shared_task_key is None
            &&& made.execution_task is None
            &&& made.trap_owner == 0
        }),
{
}

/// A handler calls its function with its queue, without interrupts, and is left as it was.
pub proof fn law_handler_is_polled_without_interrupts(
    handler_fn: usize,
    queue: usize,
    irq_state: usize,
    coroutine: TrapHandlerCoroutine,
    actions: Vec<HandlerPollAction>,
)
    requires
        call_ensures(TrapHandlerCoroutine::new, (handler_fn, queue), coroutine),
        call_ensures(TrapHandlerCoroutine::poll, (&coroutine, irq_state), actions),
    ensures
        actions@.len() == 4,
        actions@[0] == HandlerPollAction::DisableIrqs,
        actions@[1] == (HandlerPollAction::Call { handler: handler_fn, queue }),
        actions@[2] == (HandlerPollAction::RestoreIrqs { state: irq_state }),
        actions@[3] == HandlerPollAction::Pend,
{
}

/// A coroutine becomes a thread, or a thread a coroutine without a stack, exactly if the task is
/// the other one; all else of it stays.
pub proof fn law_toggle_makes_the_other_kind(
    tasks: &mut SchedTasks,
    current: usize,
    promote: bool,
    toggled: bool,
)
    requires
        call_ensures(toggle_handler, (tasks, current, promote), toggled),
    ensures
        old(tasks).resolve(current) is None ==> !toggled,
        old(tasks).resolve(current) matches Some(addr) ==> {
            let before = old(tasks).objects@[addr];
            let after = final(tasks).objects@[addr];
            &&& toggled <==> before.is_coroutine == promote
            &&& toggled ==> after.is_coroutine == !promote
            &&& toggled && promote ==> after.thread_stack_ptr == before.thread_stack_ptr
            &&& toggled && !promote ==> after.thread_stack_ptr == 0
            &&& toggled ==> after.task == before.task && after.trap_frame == before.trap_frame
                && after.coroutine == before.coroutine
        },
        !toggled ==> final(tasks).objects@ == old(tasks).objects@,
{
}

/// A user scheduler enters the kernel by the system call 0xdead and by no other trap, and it is
/// told apart whether it came from user space.
pub proof fn law_scheduler_enters_the_kernel_by_its_call(
    scause: u64,
    a7: usize,
    sstatus: usize,
    privilege: Option<usize>,
)
    requires
        call_ensures(into_kernel_request, (scause, a7, sstatus), privilege),
    ensures
        privilege is Some <==> scause == 8 && a7 == 0xdead,
        privilege matches Some(p) ==> (p == 1 <==> (sstatus / 256) % 2 == 0) && (p == 0 <==> (
        sstatus / 256) % 2 == 1),
{
}

/// Of a trap, the registers are kept in the frame of the task that trapped, which is the same
/// from its first trap on, and every other task's frame stays. The source of an interrupt is
/// quieted: the timer is stopped, an external interrupt masked, a software interrupt cleared.
pub proof fn law_trap_is_kept_for_its_task(
    tasks: &mut SchedTasks,
    frame: UserTrapFrame,
    fresh: usize,
    task: usize,
    current: usize,
    entry: TrapEntry,
    other: usize,
)
    requires
        call_ensures(vsched2_trap_entry, (tasks, frame, fresh, task, current), entry),
        Some(other) != old(tasks).resolve(entry.task),
    ensures
        task != 0 ==> entry.task == task,
        task == 0 ==> entry.task == current,
        entry.disarm_timer <==> frame.scause == 0x8000000000000005,
        entry.mask_external <==> frame.scause == 0x8000000000000009,
        entry.clear_software <==> frame.scause == 0x8000000000000001,
        old(tasks).resolve(entry.task) matches Some(addr) ==> {
            let before = old(tasks).objects@[addr];
            let after = final(tasks).objects@[addr];
            &&& final(tasks).frames@[after.trap_frame] == frame
            &&& before.trap_frame != 0 ==> after.trap_frame == before.trap_frame
            &&& before.trap_frame == 0 ==> after.trap_frame == fresh
            &&& after.task == before.task
            &&& after.thread_stack_ptr == before.thread_stack_ptr
            &&& entry.take_stack <==> is_irq(frame) && (before.is_scheduler_wait_context
                || before.is_kernel && before.is_coroutine)
        },
        old(tasks).resolve(entry.task) is None ==> !entry.take_stack,
        final(tasks).frame_of(other) == old(tasks).frame_of(other),
        final(tasks).table == old(tasks).table,
{
}

/// Of a yield, the registers are kept in the frame of the current task; a thread keeps the
/// stack that it was using, and a coroutine does not.
pub proof fn law_yield_is_kept_for_its_task(
    tasks: &mut SchedTasks,
    frame: UserTrapFrame,
    fresh: usize,
    current: usize,
    stack: usize,
    other: usize,
)
    requires
        call_ensures(vsched_yield_entry, (tasks, frame, fresh, current, stack), ()),
        Some(other) != old(tasks).resolve(current),
    ensures
        old(tasks).resolve(current) matches Some(addr) ==> {
            let before = old(tasks).objects@[addr];
            let after = final(tasks).objects@[addr];
            &&& final(tasks).frames@[after.trap_frame] == frame
            &&& before.trap_frame != 0 ==> after.trap_frame == before.trap_frame
            &&& before.trap_frame == 0 ==> after.trap_frame == fresh
            &&& !before.is_coroutine ==> after.thread_stack_ptr == stack
            &&& before.is_coroutine ==> after.thread_stack_ptr == before.thread_stack_ptr
            &&& after.task == before.task
            &&& after.is_coroutine == before.is_coroutine
        },
        final(tasks).frame_of(other) == old(tasks).frame_of(other),
        final(tasks).table == old(tasks).table,
{
}

/// A task that an interrupt found using the CPU's stack gets that stack; a coroutine becomes a
/// thread for the time, unless it is what the scheduler waits in.
pub proof fn law_interrupted_task_gets_the_stack(
    tasks: &mut SchedTasks,
    task: usize,
    stack: usize,
)
    requires
        call_ensures(hand_over_stack, (tasks, task, stack), ()),
    ensures
        ({
            let addr = old(tasks).resolve(task).unwrap();
            let before = old(tasks).objects@[addr];
            let after = final(tasks).objects@[addr];
            &&& after.thread_stack_ptr == stack
            &&& before.is_scheduler_wait_context ==> after.is_coroutine == before.is_coroutine
                && after.resume_to_coroutine == before.resume_to_coroutine
            &&& !before.is_scheduler_wait_context ==> !after.is_coroutine
                && after.resume_to_coroutine
            &&& after.task == before.task
            &&& after.trap_frame == before.trap_frame
        }),
{
}

/// A trap that waits to be handled holds what the frame of its task held.
pub proof fn law_trap_holds_its_frame(
    tasks: SchedTasks,
    task: usize,
    cpu: usize,
    info: VschedTrapInfoImpl,
)
    requires
        call_ensures(VschedTrapInfoImpl::from_task, (&tasks, task, cpu), info),
    ensures
        tasks.resolve(task) matches Some(addr) && info.frame
            == tasks.frames@[tasks.objects@[addr].trap_frame],
        info.origin_cpu == cpu,
{
}

} // verus!
