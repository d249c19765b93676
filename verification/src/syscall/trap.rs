//! Traps of user tasks.

use vstd::prelude::*;

use crate::sched::frames::{is_frame_call, lemma_frame_saved, FrameCall};
use crate::sched::registry::{direct_task, read_frame, registered, SchedTasks};
use crate::sched::task::{AxTask, VschedTaskImpl};
use crate::sched::trapframe::UserTrapFrame;
use crate::state::AxTaskState;
use crate::syscall::context::{
    finish_syscall, frame_after_syscall, is_signal, syscall_context, syscall_context_of,
    UserContext, SIGBUS, SIGILL, SIGSEGV, SIGTRAP,
};
use crate::vdso::loader::MappingFlags;

verus! {

/// What a trap asks for.
#[derive(Clone, Copy, Debug, Eq, PartialEq, Structural)]
pub enum TrapWork {
    /// Nothing: there is no frame.
    Nothing,
    /// An interrupt, by its whole cause, from which the platform tells its source.
    Interrupt { scause: usize },
    /// A system call.
    Syscall { context: UserContext },
    /// An access of memory that is not there. `flags` says how it was accessed.
    PageFault { vaddr: usize, flags: MappingFlags },
    /// A fatal signal.
    Signal { signo: u8 },
}

/// How memory was accessed when a page fault came: 12 is an instruction, 13 a read, any
/// other a write.
pub open spec fn fault_flags(scause: usize) -> MappingFlags {
    MappingFlags {
        read: scause == 13,
        write: scause != 12 && scause != 13,
        execute: scause == 12,
        user: true,
    }
}

/// The signal of an exception that is neither a system call nor a page fault.
pub open spec fn exception_signal(scause: usize) -> u8 {
    if scause == 1 || scause == 5 || scause == 7 {
        SIGSEGV
    } else if scause == 2 {
        SIGILL
    } else if scause == 0 || scause == 4 || scause == 6 {
        SIGBUS
    } else {
        SIGTRAP
    }
}

/// What the trap of a frame asks for.
pub open spec fn trap_work(frame: UserTrapFrame, sstatus: usize) -> TrapWork {
    if frame.scause as u64 / 0x8000000000000000 == 1 {
        TrapWork::Interrupt { scause: frame.scause }
    } else if frame.scause == 8 {
        TrapWork::Syscall { context: syscall_context_of(frame, sstatus) }
    } else if frame.scause == 12 || frame.scause == 13 || frame.scause == 15 {
        TrapWork::PageFault { vaddr: frame.stval, flags: fault_flags(frame.scause) }
    } else {
        TrapWork::Signal { signo: exception_signal(frame.scause) }
    }
}

/// Says what a trap asks for. `frame` is that of the task that trapped, if it has one;
/// `sstatus` is the status word with which user space is entered.
pub fn vsched_trap_dispatcher(frame: Option<UserTrapFrame>, sstatus: usize) -> (work: TrapWork)
    requires
        frame matches Some(f) ==> f.scause == 8 ==> f.sepc + 4 <= usize::MAX,
    ensures
        work == (match frame {
            Some(f) => trap_work(f, sstatus),
            None => TrapWork::Nothing,
        }),
{
    let frame: UserTrapFrame = match frame {
        Some(frame) => frame,
        None => {
            return TrapWork::Nothing;
        },
    };
    let scause: usize = frame.scause;
    let cause: u64 = scause as u64;
    assert(cause >> 63 == cause / 0x8000000000000000) by (bit_vector);
    if cause >> 63 == 1 {
        return TrapWork::Interrupt { scause };
    }
    if scause == 8 {
        return TrapWork::Syscall { context: syscall_context(&frame, sstatus) };
    }
    if scause == 12 || scause == 13 || scause == 15 {
        let flags: MappingFlags = MappingFlags {
            read: scause == 13,
            write: scause != 12 && scause != 13,
            execute: scause == 12,
            user: true,
        };
        return TrapWork::PageFault { vaddr: frame.stval, flags };
    }
    let signo: u8 = if scause == 1 || scause == 5 || scause == 7 {
        SIGSEGV
    } else if scause == 2 {
        SIGILL
    } else if scause == 0 || scause == 4 || scause == 6 {
        SIGBUS
    } else {
        SIGTRAP
    };
    TrapWork::Signal { signo }
}

/// Begins a system call of a user task: the kernel task runs, so that what the call does by
/// the kernel's own task API finds it running.
pub fn begin_syscall(task: &mut VschedTaskImpl)
    ensures
        *final(task) == (VschedTaskImpl {
            task: AxTask { state: AxTaskState::Running, ..old(task).task },
            ..*old(task)
        }),
{
    task.task.state = AxTaskState::Running;
}

/// Writes what a system call gave back to the frame of the task that made it. `task` is its
/// task ID or its address.
pub fn write_back(tasks: &mut SchedTasks, task: usize, context: &UserContext)
    requires
        old(tasks).kernel_wf(),
        old(tasks).resolve(task) matches Some(addr) && old(tasks).frame_of(addr) is Some,
    ensures
        ({
            let addr = old(tasks).resolve(task).unwrap();
            let frame = frame_after_syscall(old(tasks).frame_of(addr).unwrap(), *context);
            &&& final(tasks).frames@ == old(tasks).frames@.insert(
                old(tasks).objects@[addr].trap_frame,
                frame,
            )
            &&& is_frame_call(*old(tasks), *final(tasks), FrameCall::Save { task: addr, frame })
        }),
        final(tasks).objects@ == old(tasks).objects@,
        registered(final(tasks).registry) == registered(old(tasks).registry),
        final(tasks).table == old(tasks).table,
        final(tasks).kernel_wf(),
        old(tasks).in_step() ==> final(tasks).in_step(),
{
    broadcast use vstd::std_specs::btree::group_btree_axioms;

    let addr: usize = direct_task(tasks, task).unwrap();
    let mut frame: UserTrapFrame = read_frame(tasks, task).unwrap();
    finish_syscall(&mut frame, context);
    let at: usize = tasks.objects.get(&addr).unwrap().trap_frame;
    tasks.frames.insert(at, frame);
    proof {
        let object = tasks.objects@[addr];
        assert(tasks.objects@ =~= old(tasks).objects@.insert(addr, object));
        lemma_frame_saved(*old(tasks), *tasks, addr, object, frame);
    }
}

/// What is done for a system call of a user task.
#[derive(Clone, Copy, Debug, Eq, PartialEq, Structural)]
pub enum SyscallAction {
    /// Remember whose call it is, for faults that come while it is carried out.
    RememberTask,
    /// The kernel task runs.
    SetRunning,
    /// What belongs to a scope is that of the task's process.
    EnterScope,
    /// Carry out the call, with the task as the current one.
    Handle,
    /// What belongs to a scope is the kernel's.
    LeaveScope,
    /// Write what the call gave back to the frame.
    WriteBack,
}

/// What is done for a system call, in order. Only a thread has a process whose scope is
/// entered.
pub open spec fn syscall_steps(is_thread: bool) -> Seq<SyscallAction> {
    let before = seq![SyscallAction::RememberTask, SyscallAction::SetRunning];
    let scope = if is_thread {
        seq![SyscallAction::EnterScope]
    } else {
        Seq::empty()
    };
    before + scope + seq![
        SyscallAction::Handle,
        SyscallAction::LeaveScope,
        SyscallAction::WriteBack,
    ]
}

/// Says what is done for a system call of a user task.
pub fn syscall_actions(is_thread: bool) -> (actions: Vec<SyscallAction>)
    ensures
        actions@ == syscall_steps(is_thread),
{
    let mut actions: Vec<SyscallAction> = Vec::new();
    actions.push(SyscallAction::RememberTask);
    actions.push(SyscallAction::SetRunning);
    if is_thread {
        actions.push(SyscallAction::EnterScope);
    }
    actions.push(SyscallAction::Handle);
    actions.push(SyscallAction::LeaveScope);
    actions.push(SyscallAction::WriteBack);
    assert(actions@ =~= syscall_steps(is_thread));
    actions
}

/// A system call is carried out while the kernel task runs and, for a thread, in the scope of
/// its process; the scope is left, and the results are written back, after it.
pub proof fn law_scope_is_left_after_the_call(is_thread: bool)
    ensures
        ({
            let steps = syscall_steps(is_thread);
            let n = steps.len() as int;
            &&& steps[1] is SetRunning
            &&& is_thread ==> steps[2] is EnterScope
            &&& steps[n - 3] is Handle
            &&& steps[n - 2] is LeaveScope
            &&& steps[n - 1] is WriteBack
        }),
{
}

/// The task of whose process a signal or an address space is meant.
#[derive(Clone, Copy, Debug, Eq, PartialEq, Structural)]
pub enum TrapSubject {
    /// The task that trapped.
    Trapped,
    /// The task that runs.
    Current,
    /// The user task whose trap was handled last on this CPU.
    LastUser,
    /// None.
    Nobody,
}

/// Who gets the signal of a trap: the task that trapped, if it is a thread of a process; if
/// it is a handler, the user task whose trap was handled last, where there is one.
pub fn signal_subject(trapped_is_thread: bool, last_user: usize) -> (subject: TrapSubject)
    ensures
        subject == (if !trapped_is_thread && last_user != 0 {
            TrapSubject::LastUser
        } else {
            TrapSubject::Trapped
        }),
{
    if !trapped_is_thread {
        if last_user != 0 {
            return TrapSubject::LastUser;
        }
    }
    TrapSubject::Trapped
}

/// In whose address space a page fault is resolved: that of the first thread among the task
/// that trapped, the task that runs, and the user task whose trap was handled last.
pub fn fault_subject(
    trapped_is_thread: bool,
    current_is_thread: bool,
    last_user: usize,
    last_is_thread: bool,
) -> (subject: TrapSubject)
    ensures
        subject == (if trapped_is_thread {
            TrapSubject::Trapped
        } else if current_is_thread {
            TrapSubject::Current
        } else if last_user != 0 && last_is_thread {
            TrapSubject::LastUser
        } else {
            TrapSubject::Nobody
        }),
{
    if trapped_is_thread {
        TrapSubject::Trapped
    } else if current_is_thread {
        TrapSubject::Current
    } else if last_user != 0 {
        if last_is_thread {
            TrapSubject::LastUser
        } else {
            TrapSubject::Nobody
        }
    } else {
        TrapSubject::Nobody
    }
}

/// Whether a page fault is resolved. `mapped` says that the page is in the page table
/// already, and `handled` what the address space made of the fault. Only for the last user
/// task is a page that is there already enough.
pub fn fault_fixed(subject: TrapSubject, mapped: bool, handled: bool) -> (fixed: bool)
    ensures
        fixed == (match subject {
            TrapSubject::Trapped | TrapSubject::Current => handled,
            TrapSubject::LastUser => mapped || handled,
            TrapSubject::Nobody => false,
        }),
{
    match subject {
        TrapSubject::Trapped | TrapSubject::Current => handled,
        TrapSubject::LastUser => mapped || handled,
        TrapSubject::Nobody => false,
    }
}

/// The signal that follows a page fault, if it was not resolved.
pub fn fault_signal(fixed: bool) -> (signo: Option<u8>)
    ensures
        signo == (if fixed {
            None
        } else {
            Some(SIGSEGV)
        }),
{
    if !fixed {
        Some(SIGSEGV)
    } else {
        None
    }
}

/// Why a task left user space, under the kernel's own scheduler.
#[derive(Clone, Copy, Debug, Eq, PartialEq, Structural)]
pub enum ReturnReason {
    Syscall,
    PageFault { vaddr: usize, flags: MappingFlags },
    Interrupt,
    Misaligned,
    Breakpoint,
    IllegalInstruction,
    OtherException,
    Unknown,
}

/// What is done for a task that left user space.
#[derive(Clone, Copy, Debug, Eq, PartialEq, Structural)]
pub enum UserWork {
    HandleSyscall,
    /// Resolve the fault, or raise the segmentation fault signal.
    HandlePageFault { vaddr: usize, flags: MappingFlags },
    Nothing,
    Signal { signo: u8 },
}

/// What is done for a task that left user space.
pub open spec fn user_work(reason: ReturnReason) -> UserWork {
    match reason {
        ReturnReason::Syscall => UserWork::HandleSyscall,
        ReturnReason::PageFault { vaddr, flags } => UserWork::HandlePageFault { vaddr, flags },
        ReturnReason::Interrupt => UserWork::Nothing,
        ReturnReason::Misaligned => UserWork::Signal { signo: SIGBUS },
        ReturnReason::Breakpoint => UserWork::Signal { signo: SIGTRAP },
        ReturnReason::IllegalInstruction => UserWork::Signal { signo: SIGILL },
        ReturnReason::OtherException => UserWork::Signal { signo: SIGTRAP },
        ReturnReason::Unknown => UserWork::Signal { signo: SIGSEGV },
    }
}

/// What a user task waits for, under the kernel's own scheduler.
#[derive(Clone, Copy, Debug, Eq, PartialEq, Structural)]
pub enum UserTaskPhase {
    /// For its ID to be written.
    WritingTid,
    /// To be told whether it is to exit.
    AskingExit,
    /// For its return from user space.
    InUser,
    /// For its time to count as the kernel's.
    EnteringKernel { reason: ReturnReason },
    /// To be told whether a page fault was resolved.
    Resolving,
    /// For its work to be done.
    Working,
    /// To be told whether a signal was unblocked.
    Unblocking,
    /// To be told whether a signal was taken.
    CheckingSignals,
    /// For its time to count as the user's.
    LeavingKernel,
    /// For its interruption to be forgotten.
    ClearingInterrupt,
    /// For nothing more.
    Over,
}

/// What a user task is told.
#[derive(Clone, Copy, Debug, Eq, PartialEq, Structural)]
pub enum UserTaskEvent {
    /// What it did last is done. A failure to write its ID is ignored.
    Done,
    /// Whether it is to exit.
    PendingExit { yes: bool },
    Returned { reason: ReturnReason },
    /// Whether the page fault was resolved.
    Fixed { yes: bool },
    /// Whether a signal was unblocked.
    Unblocked { yes: bool },
    /// Whether a signal was taken: there may be more.
    Checked { taken: bool },
}

/// What a user task does next.
#[derive(Clone, Copy, Debug, Eq, PartialEq, Structural)]
pub enum UserTaskAction {
    /// Write its ID where its maker asked for it.
    WriteTid { at: usize, tid: u32 },
    AskPendingExit,
    /// Run in user space.
    RunUser,
    /// From now on its time counts as the kernel's.
    TimerToKernel,
    /// Do what its return from user space asks for.
    Work { work: UserWork },
    UnblockNextSignal,
    CheckSignals,
    /// From now on its time counts as the user's.
    TimerToUser,
    ClearInterrupt,
    /// The task is over.
    Finish,
}

/// The events that can come in a phase.
pub open spec fn user_task_expects(phase: UserTaskPhase, event: UserTaskEvent) -> bool {
    match phase {
        UserTaskPhase::WritingTid => event is Done,
        UserTaskPhase::AskingExit => event is PendingExit,
        UserTaskPhase::InUser => event is Returned,
        UserTaskPhase::EnteringKernel { .. } => event is Done,
        UserTaskPhase::Resolving => event is Fixed,
        UserTaskPhase::Working => event is Done,
        UserTaskPhase::Unblocking => event is Unblocked,
        UserTaskPhase::CheckingSignals => event is Checked,
        UserTaskPhase::LeavingKernel => event is Done,
        UserTaskPhase::ClearingInterrupt => event is Done,
        UserTaskPhase::Over => false,
    }
}

/// What follows once the time of a task counts as the kernel's.
pub open spec fn user_work_begun(reason: ReturnReason) -> (UserTaskPhase, UserTaskAction) {
    let work = user_work(reason);
    match work {
        UserWork::Nothing => (UserTaskPhase::Unblocking, UserTaskAction::UnblockNextSignal),
        UserWork::HandlePageFault { .. } => (
            UserTaskPhase::Resolving,
            UserTaskAction::Work { work },
        ),
        _ => (UserTaskPhase::Working, UserTaskAction::Work { work }),
    }
}

/// The next phase of a user task, and what it does.
pub open spec fn user_task_next(phase: UserTaskPhase, event: UserTaskEvent) -> (
    UserTaskPhase,
    UserTaskAction,
) {
    match (phase, event) {
        (UserTaskPhase::WritingTid, _) => (
            UserTaskPhase::AskingExit,
            UserTaskAction::AskPendingExit,
        ),
        (UserTaskPhase::AskingExit, UserTaskEvent::PendingExit { yes }) => if yes {
            (UserTaskPhase::Over, UserTaskAction::Finish)
        } else {
            (UserTaskPhase::InUser, UserTaskAction::RunUser)
        },
        (UserTaskPhase::InUser, UserTaskEvent::Returned { reason }) => (
            UserTaskPhase::EnteringKernel { reason },
            UserTaskAction::TimerToKernel,
        ),
        (UserTaskPhase::EnteringKernel { reason }, _) => user_work_begun(reason),
        (UserTaskPhase::Resolving, UserTaskEvent::Fixed { yes }) => if yes {
            (UserTaskPhase::Unblocking, UserTaskAction::UnblockNextSignal)
        } else {
            (
                UserTaskPhase::Working,
                UserTaskAction::Work { work: UserWork::Signal { signo: SIGSEGV } },
            )
        },
        (UserTaskPhase::Working, _) => (
            UserTaskPhase::Unblocking,
            UserTaskAction::UnblockNextSignal,
        ),
        (UserTaskPhase::Unblocking, UserTaskEvent::Unblocked { yes }) => if yes {
            (UserTaskPhase::LeavingKernel, UserTaskAction::TimerToUser)
        } else {
            (UserTaskPhase::CheckingSignals, UserTaskAction::CheckSignals)
        },
        (UserTaskPhase::CheckingSignals, UserTaskEvent::Checked { taken }) => if taken {
            (UserTaskPhase::CheckingSignals, UserTaskAction::CheckSignals)
        } else {
            (UserTaskPhase::LeavingKernel, UserTaskAction::TimerToUser)
        },
        (UserTaskPhase::LeavingKernel, _) => (
            UserTaskPhase::ClearingInterrupt,
            UserTaskAction::ClearInterrupt,
        ),
        (UserTaskPhase::ClearingInterrupt, _) => (
            UserTaskPhase::AskingExit,
            UserTaskAction::AskPendingExit,
        ),
        _ => (phase, UserTaskAction::Finish),
    }
}

/// Starts a user task: writes its ID where its maker asked for it, if it did, and asks whether
/// it is to exit.
pub fn new_user_task(set_child_tid: usize, tid: u32) -> (first: (UserTaskPhase, UserTaskAction))
    ensures
        first == (if set_child_tid != 0 {
            (UserTaskPhase::WritingTid, UserTaskAction::WriteTid { at: set_child_tid, tid })
        } else {
            (UserTaskPhase::AskingExit, UserTaskAction::AskPendingExit)
        }),
{
    if set_child_tid != 0 {
        (UserTaskPhase::WritingTid, UserTaskAction::WriteTid { at: set_child_tid, tid })
    } else {
        (UserTaskPhase::AskingExit, UserTaskAction::AskPendingExit)
    }
}

fn work_of(reason: ReturnReason) -> (work: UserWork)
    ensures
        work == user_work(reason),
{
    match reason {
        ReturnReason::Syscall => UserWork::HandleSyscall,
        ReturnReason::PageFault { vaddr, flags } => UserWork::HandlePageFault { vaddr, flags },
        ReturnReason::Interrupt => UserWork::Nothing,
        ReturnReason::Misaligned => UserWork::Signal { signo: SIGBUS },
        ReturnReason::Breakpoint => UserWork::Signal { signo: SIGTRAP },
        ReturnReason::IllegalInstruction => UserWork::Signal { signo: SIGILL },
        ReturnReason::OtherException => UserWork::Signal { signo: SIGTRAP },
        ReturnReason::Unknown => UserWork::Signal { signo: SIGSEGV },
    }
}

fn begin_work(reason: ReturnReason) -> (next: (UserTaskPhase, UserTaskAction))
    ensures
        next == user_work_begun(reason),
{
    let work: UserWork = work_of(reason);
    match work {
        UserWork::Nothing => (UserTaskPhase::Unblocking, UserTaskAction::UnblockNextSignal),
        UserWork::HandlePageFault { .. } => (
            UserTaskPhase::Resolving,
            UserTaskAction::Work { work },
        ),
        _ => (UserTaskPhase::Working, UserTaskAction::Work { work }),
    }
}

/// Runs a user task, under the kernel's own scheduler: takes what came of the last action, and
/// says what to do next. The task runs in user space until it is to exit. After each return its
/// time counts as the kernel's while it is worked for and its signals are looked at, unless one
/// was unblocked.
pub fn user_task_round(phase: UserTaskPhase, event: UserTaskEvent) -> (next: (
    UserTaskPhase,
    UserTaskAction,
))
    requires
        user_task_expects(phase, event),
    ensures
        next == user_task_next(phase, event),
{
    match event {
        UserTaskEvent::PendingExit { yes } => {
            if yes {
                (UserTaskPhase::Over, UserTaskAction::Finish)
            } else {
                (UserTaskPhase::InUser, UserTaskAction::RunUser)
            }
        },
        UserTaskEvent::Returned { reason } => (
            UserTaskPhase::EnteringKernel { reason },
            UserTaskAction::TimerToKernel,
        ),
        UserTaskEvent::Fixed { yes } => {
            if yes {
                (UserTaskPhase::Unblocking, UserTaskAction::UnblockNextSignal)
            } else {
                (
                    UserTaskPhase::Working,
                    UserTaskAction::Work { work: UserWork::Signal { signo: SIGSEGV } },
                )
            }
        },
        UserTaskEvent::Unblocked { yes: true } | UserTaskEvent::Checked { taken: false } => (
            UserTaskPhase::LeavingKernel,
            UserTaskAction::TimerToUser,
        ),
        UserTaskEvent::Unblocked { yes: false } | UserTaskEvent::Checked { taken: true } => (
            UserTaskPhase::CheckingSignals,
            UserTaskAction::CheckSignals,
        ),
        UserTaskEvent::Done => match phase {
            UserTaskPhase::EnteringKernel { reason } => begin_work(reason),
            UserTaskPhase::Working => (
                UserTaskPhase::Unblocking,
                UserTaskAction::UnblockNextSignal,
            ),
            UserTaskPhase::LeavingKernel => (
                UserTaskPhase::ClearingInterrupt,
                UserTaskAction::ClearInterrupt,
            ),
            _ => (UserTaskPhase::AskingExit, UserTaskAction::AskPendingExit),
        },
    }
}

/// Whether the time of a task counts as the kernel's in a phase.
pub open spec fn on_kernel_time(phase: UserTaskPhase) -> bool {
    phase is Resolving || phase is Working || phase is Unblocking || phase is CheckingSignals
}

/// A user task is worked for, and its signals are looked at, on kernel time, and runs in user
/// space on its own. Its time changes sides exactly where its timer is told so.
pub proof fn law_user_task_keeps_time(phase: UserTaskPhase, event: UserTaskEvent)
    requires
        user_task_expects(phase, event),
    ensures
        ({
            let next = user_task_next(phase, event);
            &&& next.1 is Work || next.1 is UnblockNextSignal || next.1 is CheckSignals
                ==> on_kernel_time(next.0)
            &&& next.1 is RunUser ==> phase is AskingExit && !on_kernel_time(next.0)
            &&& on_kernel_time(next.0) && !on_kernel_time(phase) ==> phase is EnteringKernel
            &&& next.0 is EnteringKernel ==> next.1 is TimerToKernel
            &&& on_kernel_time(phase) && !on_kernel_time(next.0) ==> next.1 is TimerToUser
        }),
{
}

/// A user task runs in user space again only when its interruption has been forgotten and it
/// has been asked whether it is to exit.
pub proof fn law_user_task_asks_before_user_space(phase: UserTaskPhase, event: UserTaskEvent)
    requires
        user_task_expects(phase, event),
    ensures
        ({
            let next = user_task_next(phase, event);
            &&& next.0 is InUser <==> phase is AskingExit && event
                == UserTaskEvent::PendingExit { yes: false }
            &&& next.0 is AskingExit <==> phase is WritingTid || phase is ClearingInterrupt
            &&& next.0 is ClearingInterrupt <==> phase is LeavingKernel
            &&& next.0 is Over <==> phase is AskingExit && event == UserTaskEvent::PendingExit {
                yes: true,
            }
        }),
{
}

/// Every trap has an answer: an interrupt goes to the platform with its whole cause, and an
/// exception is dealt with, or a signal says what it was.
pub proof fn law_every_exception_has_a_signal(frame: UserTrapFrame, sstatus: usize)
    ensures
        trap_work(frame, sstatus) matches TrapWork::Signal { signo } ==> is_signal(signo as int),
        trap_work(frame, sstatus) !is Nothing,
        frame.scause as u64 / 0x8000000000000000 == 1 <==> trap_work(frame, sstatus)
            == (TrapWork::Interrupt { scause: frame.scause }),
{
}

} // verus!
