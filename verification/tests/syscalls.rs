//! System calls that make, replace, end and wait for tasks, and traps of user space.

use linux_raw_sys::general as linux;
use vsched::sched::registry::{read_frame, register_task, SchedTasks, TaskPlacement};
use vsched::sched::task::{AxTask, KernelThreadStart, VschedTaskImpl};
use vsched::sched::trap::vsched2_trap_entry;
use vsched::sched::trapframe::{UserGeneralRegs, UserTrapFrame, UserTrapFrameKind};
use vsched::state::AxTaskState;
use vsched::syscall::clone::{
    clone_failed, sys_clone, sys_fork, vdso_areas_to_unmap, CloneAction, CloneFlags,
    CLONE_CHILD_CLEARTID, CLONE_CHILD_SETTID, CLONE_FILES, CLONE_FS, CLONE_IO, CLONE_KNOWN,
    CLONE_NEWCGROUP, CLONE_NEWIPC, CLONE_NEWNET, CLONE_NEWNS, CLONE_NEWPID, CLONE_NEWUSER,
    CLONE_NEWUTS, CLONE_PARENT, CLONE_PARENT_SETTID, CLONE_PIDFD, CLONE_PTRACE, CLONE_SETTLS,
    CLONE_SIGHAND, CLONE_SIGNAL_MASK, CLONE_SYSVSEM, CLONE_THREAD, CLONE_UNTRACED, CLONE_VFORK,
    CLONE_VM,
};
use vsched::syscall::context::{
    finish_syscall, signal_from_number, syscall_context, SysError, UserContext, SIGBUS, SIGCHLD,
    SIGILL, SIGKILL, SIGSEGV, SIGTRAP,
};
use vsched::syscall::execve::{
    apply_exec_action, check_execve, check_threads, cloexec_fds, load_args, set_exec_context,
    sys_execve, ExecAction, ExecEvent, ExecImage, ExecPhase, ExecProcess, ExecScheduler,
};
use vsched::syscall::exit::{
    do_exit, exit_robust_list, handle_futex_death, mark_exited, raise_signal_fatal_for_task,
    sys_exit, sys_exit_group, ExitAction, ExitEvent, ExitPhase, ExitRequest, ExitingThread,
    FatalSignal, RobustList, RobustListHead, RobustVisit, ROBUST_LIST_LIMIT,
};
use vsched::syscall::trap::{
    begin_syscall, fault_fixed, fault_signal, fault_subject, new_user_task, signal_subject,
    syscall_actions, user_task_round, vsched_trap_dispatcher, write_back, ReturnReason,
    SyscallAction, TrapSubject, TrapWork, UserTaskAction, UserTaskEvent, UserTaskPhase, UserWork,
};
use vsched::syscall::wait::{
    check_children, select_children, sys_waitpid_step, Child, ChildCheck, WaitAction, WaitEvent,
    WaitPhase, WaitPid, WaitRequest, Waiting, WALL, WCLONE, WCONTINUED, WEXITED, WNOHANG,
    WNOTHREAD, WNOWAIT, WUNTRACED,
};
use vsched::vdso::loader::MappingFlags;

fn context() -> UserContext {
    let mut context = UserContext::new(0x4000, 0x9000, 7, 0x20);
    context.regs.tp = 0x70;
    context.regs.s3 = 0x33;
    context
}

fn frame(scause: usize) -> UserTrapFrame {
    UserTrapFrame {
        regs: UserGeneralRegs {
            ra: 1,
            sp: 2,
            tp: 4,
            a0: 10,
            a1: 11,
            a2: 12,
            a3: 13,
            a4: 14,
            a5: 15,
            a6: 16,
            a7: 17,
            s1: 9,
            ..UserGeneralRegs::default()
        },
        sepc: 0x100,
        sstatus: 0x1,
        scause,
        stval: 0xabc,
        kind: UserTrapFrameKind::Trap,
    }
}

#[test]
fn constants_are_those_of_the_system_interface() {
    assert_eq!(CLONE_VM, linux::CLONE_VM);
    assert_eq!(CLONE_FS, linux::CLONE_FS);
    assert_eq!(CLONE_FILES, linux::CLONE_FILES);
    assert_eq!(CLONE_SIGHAND, linux::CLONE_SIGHAND);
    assert_eq!(CLONE_PIDFD, linux::CLONE_PIDFD);
    assert_eq!(CLONE_PTRACE, linux::CLONE_PTRACE);
    assert_eq!(CLONE_VFORK, linux::CLONE_VFORK);
    assert_eq!(CLONE_PARENT, linux::CLONE_PARENT);
    assert_eq!(CLONE_THREAD, linux::CLONE_THREAD);
    assert_eq!(CLONE_NEWNS, linux::CLONE_NEWNS);
    assert_eq!(CLONE_SYSVSEM, linux::CLONE_SYSVSEM);
    assert_eq!(CLONE_SETTLS, linux::CLONE_SETTLS);
    assert_eq!(CLONE_PARENT_SETTID, linux::CLONE_PARENT_SETTID);
    assert_eq!(CLONE_CHILD_CLEARTID, linux::CLONE_CHILD_CLEARTID);
    assert_eq!(CLONE_UNTRACED, linux::CLONE_UNTRACED);
    assert_eq!(CLONE_CHILD_SETTID, linux::CLONE_CHILD_SETTID);
    assert_eq!(CLONE_NEWCGROUP, linux::CLONE_NEWCGROUP);
    assert_eq!(CLONE_NEWUTS, linux::CLONE_NEWUTS);
    assert_eq!(CLONE_NEWIPC, linux::CLONE_NEWIPC);
    assert_eq!(CLONE_NEWUSER, linux::CLONE_NEWUSER);
    assert_eq!(CLONE_NEWPID, linux::CLONE_NEWPID);
    assert_eq!(CLONE_NEWNET, linux::CLONE_NEWNET);
    assert_eq!(CLONE_IO, linux::CLONE_IO);
    let all = CLONE_VM
        | CLONE_FS
        | CLONE_FILES
        | CLONE_SIGHAND
        | CLONE_PIDFD
        | CLONE_PTRACE
        | CLONE_VFORK
        | CLONE_PARENT
        | CLONE_THREAD
        | CLONE_NEWNS
        | CLONE_SYSVSEM
        | CLONE_SETTLS
        | CLONE_PARENT_SETTID
        | CLONE_CHILD_CLEARTID
        | CLONE_UNTRACED
        | CLONE_CHILD_SETTID
        | CLONE_NEWCGROUP
        | CLONE_NEWUTS
        | CLONE_NEWIPC
        | CLONE_NEWUSER
        | CLONE_NEWPID
        | CLONE_NEWNET
        | CLONE_IO;
    assert_eq!(CLONE_KNOWN, all);
    assert_eq!(CLONE_KNOWN & CLONE_SIGNAL_MASK, 0);
    assert_eq!(CLONE_KNOWN & linux::CLONE_DETACHED, 0);
    assert_eq!(ROBUST_LIST_LIMIT, linux::ROBUST_LIST_LIMIT);
    assert_eq!(SIGILL as u32, linux::SIGILL);
    assert_eq!(SIGTRAP as u32, linux::SIGTRAP);
    assert_eq!(SIGBUS as u32, linux::SIGBUS);
    assert_eq!(SIGKILL as u32, linux::SIGKILL);
    assert_eq!(SIGSEGV as u32, linux::SIGSEGV);
    assert_eq!(SIGCHLD as u32, linux::SIGCHLD);
    assert_eq!(WNOHANG, linux::WNOHANG);
    assert_eq!(WUNTRACED, linux::WUNTRACED);
    assert_eq!(WEXITED, linux::WEXITED);
    assert_eq!(WCONTINUED, linux::WCONTINUED);
    assert_eq!(WNOWAIT, linux::WNOWAIT);
    assert_eq!(WNOTHREAD, linux::__WNOTHREAD);
    assert_eq!(WALL, linux::__WALL);
    assert_eq!(WCLONE, linux::__WCLONE);
}

#[test]
fn flags_of_a_clone_are_what_their_bits_say() {
    let flags = CloneFlags::from_argument(CLONE_VM | CLONE_THREAD | 17);
    assert!(flags.contains(CLONE_VM));
    assert!(flags.contains(CLONE_VM | CLONE_THREAD));
    assert!(!flags.contains(CLONE_VM | CLONE_FILES));
    assert_eq!(flags.bits & CLONE_SIGNAL_MASK, 0);
    let vfork = CloneFlags::from_argument(CLONE_VM | CLONE_VFORK);
    assert!(!vfork.contains(CLONE_VM));
    assert_eq!(CloneFlags::from_argument(linux::CLONE_DETACHED).bits, 0);
}

#[test]
fn a_clone_is_refused_for_three_reasons() {
    let refused = |flags: u32| {
        matches!(sys_clone(&context(), flags, 0, 0, 0, 0, true), Err(SysError::InvalidInput))
    };
    assert!(refused(17 | CLONE_THREAD | CLONE_PARENT | CLONE_VM | CLONE_SIGHAND));
    assert!(!refused(CLONE_THREAD | CLONE_PARENT | CLONE_VM | CLONE_SIGHAND));
    assert!(refused(CLONE_THREAD | CLONE_VM));
    assert!(refused(CLONE_THREAD | CLONE_SIGHAND));
    assert!(refused(CLONE_THREAD | CLONE_VM | CLONE_SIGHAND | CLONE_VFORK));
    assert!(refused(CLONE_PIDFD | CLONE_PARENT_SETTID));
    assert!(!refused(CLONE_PIDFD));
    assert!(!refused(17));
}

#[test]
fn a_thread_shares_its_process() {
    let flags = CLONE_THREAD
        | CLONE_VM
        | CLONE_SIGHAND
        | CLONE_SETTLS
        | CLONE_PARENT_SETTID
        | CLONE_CHILD_CLEARTID
        | CLONE_CHILD_SETTID;
    let (child, actions) =
        sys_clone(&context(), flags, 0x5000, 0x600, 0x700, 0x800, false).unwrap();
    assert_eq!(child.context.regs.sp, 0x5000);
    assert_eq!(child.context.regs.tp, 0x700);
    assert_eq!(child.context.regs.a0, 0);
    assert_eq!(child.context.regs.s3, 0x33);
    assert_eq!(child.context.sepc, 0x4000);
    assert_eq!(child.set_child_tid, 0x800);
    assert_eq!(child.clear_child_tid, Some(0x800));
    assert_eq!(child.exit_signal, None);
    assert_eq!(
        actions,
        vec![
            CloneAction::NewTask,
            CloneAction::WriteParentTid { at: 0x600 },
            CloneAction::SetPageTable,
            CloneAction::AddThread,
            CloneAction::NewThread,
            CloneAction::SetClearChildTid { at: 0x800 },
            CloneAction::SpawnTask,
            CloneAction::AddToTable,
        ]
    );
    let (_, actions) = sys_clone(&context(), flags, 0x5000, 0x600, 0x700, 0x800, true).unwrap();
    assert_eq!(
        actions[6..],
        [
            CloneAction::NewVschedTask,
            CloneAction::SetPid,
            CloneAction::RegisterUserTask,
            CloneAction::PushTask,
            CloneAction::AddToTable,
        ]
    );
}

#[test]
fn a_child_has_the_registers_of_its_parent() {
    let mut trapped = frame(8);
    trapped.regs.gp = 3;
    trapped.regs.s11 = 27;
    let (child, _) = sys_fork(&syscall_context(&trapped, 0x22), true);
    assert_eq!(child.context.regs, UserGeneralRegs { a0: 0, ..trapped.regs });
    assert_eq!(child.context.sepc, 0x104);
}

#[test]
fn a_process_gets_its_own_shared_object_before_it_is_pushed() {
    let (child, actions) =
        sys_clone(&context(), 17 | CLONE_PIDFD, 0, 0x600, 0x700, 0x800, true).unwrap();
    assert_eq!(child.context.regs.sp, 0x9000);
    assert_eq!(child.context.regs.tp, 0x70);
    assert_eq!(child.set_child_tid, 0);
    assert_eq!(child.clear_child_tid, None);
    assert_eq!(child.exit_signal, Some(17));
    assert_eq!(
        actions,
        vec![
            CloneAction::NewTask,
            CloneAction::Fork { from_parent: false },
            CloneAction::CopyAspace,
            CloneAction::CopyKernelMappings,
            CloneAction::SetPageTable,
            CloneAction::CopySignalActions,
            CloneAction::NewProcessData,
            CloneAction::InheritUmask,
            CloneAction::InheritHeapTop,
            CloneAction::CopyFiles,
            CloneAction::CopyFs,
            CloneAction::AddThread,
            CloneAction::NewPidFd,
            CloneAction::WritePidFd { at: 0x600 },
            CloneAction::NewThread,
            CloneAction::NewVschedTask,
            CloneAction::UnmapVdso,
            CloneAction::MapVdso,
            CloneAction::PublishVdsoBase,
            CloneAction::ProcessInit,
            CloneAction::BindProcessId,
            CloneAction::SetPid,
            CloneAction::UserInit,
            CloneAction::RegisterUserTask,
            CloneAction::PushTask,
            CloneAction::AddToTable,
        ]
    );
}

#[test]
fn a_process_can_share_what_its_parent_has() {
    let flags = CLONE_VM | CLONE_SIGHAND | CLONE_FILES | CLONE_FS | CLONE_PARENT;
    let (_, actions) = sys_clone(&context(), flags, 0, 0, 0, 0, true).unwrap();
    assert_eq!(
        actions,
        vec![
            CloneAction::NewTask,
            CloneAction::FindParent,
            CloneAction::Fork { from_parent: true },
            CloneAction::ShareAspace,
            CloneAction::SetPageTable,
            CloneAction::ShareSignalActions,
            CloneAction::NewProcessData,
            CloneAction::InheritUmask,
            CloneAction::InheritHeapTop,
            CloneAction::ShareFiles,
            CloneAction::ShareFs,
            CloneAction::AddThread,
            CloneAction::NewThread,
            CloneAction::NewVschedTask,
            CloneAction::PublishVdsoBase,
            CloneAction::ProcessInit,
            CloneAction::BindProcessId,
            CloneAction::SetPid,
            CloneAction::UserInit,
            CloneAction::RegisterUserTask,
            CloneAction::PushTask,
            CloneAction::AddToTable,
        ]
    );
}

#[test]
fn a_fork_copies_everything() {
    let (child, actions) = sys_fork(&context(), false);
    assert_eq!(child.exit_signal, Some(17));
    assert_eq!(child.context.regs, UserGeneralRegs { a0: 0, ..context().regs });
    assert!(actions.contains(&CloneAction::CopyAspace));
    assert!(actions.contains(&CloneAction::SpawnTask));
}

#[test]
fn failures_of_a_clone_are_returned_or_ignored() {
    let error = SysError::Other { code: 12 };
    assert_eq!(clone_failed(CloneAction::WriteParentTid { at: 1 }, error), None);
    assert_eq!(clone_failed(CloneAction::PushTask, error), None);
    assert_eq!(clone_failed(CloneAction::FindParent, error), Some(SysError::InvalidInput));
    assert_eq!(clone_failed(CloneAction::CopyAspace, error), Some(error));
    assert_eq!(clone_failed(CloneAction::WritePidFd { at: 1 }, error), Some(error));
}

#[test]
fn only_the_areas_of_the_shared_object_are_unmapped() {
    let areas =
        vec![(0x1000, 0x2000), (0x8000, 0x9000), (0x9000, 0xa000), (0xa000, 0xd000), (0xe000, 0xf000)];
    assert_eq!(
        vdso_areas_to_unmap(&areas, 0x9000, 0x1000, 0x3000),
        vec![(0x8000, 0x1000), (0x9000, 0x1000)]
    );
}

const HEAP: usize = 0x4000_0000;

const IMAGE: ExecImage = ExecImage { entry: 0x111, stack: 0x222 };

fn read(threads: usize) -> ExecEvent {
    ExecEvent::Read { path: None, argv: None, envp: None, threads }
}

/// Runs a call to its end, with the event that each action gives, and returns the actions.
fn run_exec(
    scheduler: Option<ExecScheduler>,
    fails: Option<(ExecAction, SysError)>,
    process: &mut ExecProcess,
) -> Vec<ExecAction> {
    let mut actions = vec![];
    let (mut phase, mut action) = sys_execve(ExecPhase::Begun, read(1), HEAP);
    while phase != ExecPhase::Over {
        actions.push(action);
        let event = match fails {
            Some((failing, error)) if failing == action => ExecEvent::Failed { error },
            _ => {
                apply_exec_action(process, action);
                if action == ExecAction::Load {
                    ExecEvent::Loaded { image: IMAGE, scheduler }
                } else {
                    ExecEvent::Done
                }
            }
        };
        (phase, action) = sys_execve(phase, event, HEAP);
    }
    actions.push(action);
    actions
}

fn exec_process() -> ExecProcess {
    ExecProcess {
        heap_top: 0x5000,
        default_signals: false,
        clear_child_tid: 0x77,
        files: vec![(0, false), (3, true), (4, false), (7, true)],
        context: context(),
    }
}

#[test]
fn a_program_is_replaced_in_order() {
    assert_eq!(check_threads(2), Err(SysError::WouldBlock));
    assert_eq!(check_threads(1), Ok(()));
    let scheduler =
        ExecScheduler { root: 0x10, kernel_root: 0x20, trapped: 0x30, old_pid: 4 };
    let mut process = exec_process();
    assert_eq!(
        run_exec(Some(scheduler), None, &mut process),
        vec![
            ExecAction::Load,
            ExecAction::SwitchPageTable { root: 0x10 },
            ExecAction::ProcessInit,
            ExecAction::UserInit,
            ExecAction::UnregisterUserTask { task: 0x30 },
            ExecAction::SetTaskPid { task: 0x30 },
            ExecAction::BindProcessId,
            ExecAction::PublishVdsoBase { task: 0x30 },
            ExecAction::RegisterUserTask { task: 0x30 },
            ExecAction::DropOldProcess { pid: 4 },
            ExecAction::RestorePageTable { root: 0x20 },
            ExecAction::ResolvePath,
            ExecAction::SetName,
            ExecAction::SetExePath,
            ExecAction::SetCmdline,
            ExecAction::ResetHeap { top: HEAP },
            ExecAction::ResetSignals,
            ExecAction::ClearChildTid,
            ExecAction::CloseFiles,
            ExecAction::SetContext { entry: 0x111, stack: 0x222 },
            ExecAction::Complete { value: 0 },
        ]
    );
    assert_eq!(process.heap_top, HEAP);
    assert!(process.default_signals);
    assert_eq!(process.clear_child_tid, 0);
    assert_eq!(process.files, vec![(0, false), (4, false)]);
    assert_eq!(process.context.sepc, 0x111);
    assert_eq!(process.context.regs, UserGeneralRegs { sp: 0x222, ..context().regs });
    let same = ExecScheduler { root: 0x20, ..scheduler };
    assert_eq!(run_exec(Some(same), None, &mut exec_process())[1], ExecAction::ProcessInit);
    assert_eq!(run_exec(None, None, &mut exec_process())[1], ExecAction::ResolvePath);
    let mut after = context();
    set_exec_context(&mut after, 0x111, 0x222);
    assert_eq!(after, process.context);
}

#[test]
fn a_program_that_is_refused_changes_nothing() {
    let error = SysError::Other { code: 14 };
    assert_eq!(
        sys_execve(ExecPhase::Begun, read(2), HEAP),
        (ExecPhase::Over, ExecAction::Fail { error: SysError::WouldBlock })
    );
    let bad = ExecEvent::Read { path: None, argv: Some(error), envp: None, threads: 2 };
    assert_eq!(
        sys_execve(ExecPhase::Begun, bad, HEAP),
        (ExecPhase::Over, ExecAction::Fail { error })
    );
    for (failing, count) in
        [(ExecAction::Load, 2), (ExecAction::ResolvePath, 3), (ExecAction::SetExePath, 5)]
    {
        let mut process = exec_process();
        let actions = run_exec(None, Some((failing, error)), &mut process);
        assert_eq!(actions.len(), count);
        assert_eq!(actions[count - 2], failing);
        assert_eq!(actions[count - 1], ExecAction::Fail { error });
        assert_eq!(process.context, context());
        assert_eq!(process.heap_top, 0x5000);
        assert!(!process.default_signals);
        assert_eq!(process.clear_child_tid, 0x77);
        assert_eq!(process.files.len(), 4);
    }
}

#[test]
fn a_program_is_refused_by_its_first_bad_part() {
    let error = SysError::Other { code: 14 };
    let other = SysError::Other { code: 7 };
    assert_eq!(check_execve(Some(error), Some(other), None, 2), Err(error));
    assert_eq!(check_execve(None, Some(other), Some(error), 2), Err(other));
    assert_eq!(check_execve(None, None, Some(error), 2), Err(error));
    assert_eq!(check_execve(None, None, None, 2), Err(SysError::WouldBlock));
    assert_eq!(check_execve(None, None, None, 1), Ok(()));
    assert_eq!(load_args(0, Err(error)), Ok(vec![]));
    assert_eq!(load_args(8, Err(error)), Err(error));
    let args = vec![String::from("sh"), String::from("-c")];
    assert_eq!(load_args(8, Ok(args.clone())), Ok(args));
}

#[test]
fn a_system_call_is_carried_out_in_the_scope_of_its_process() {
    assert_eq!(
        syscall_actions(true),
        vec![
            SyscallAction::RememberTask,
            SyscallAction::SetRunning,
            SyscallAction::EnterScope,
            SyscallAction::Handle,
            SyscallAction::LeaveScope,
            SyscallAction::WriteBack,
        ]
    );
    assert!(!syscall_actions(false).contains(&SyscallAction::EnterScope));
}

#[test]
fn files_are_closed_if_they_are_marked() {
    assert_eq!(cloexec_fds(&vec![(0, false), (3, true), (4, false), (7, true)]), vec![3, 7]);
}

#[test]
fn exit_codes_are_shifted() {
    assert_eq!(sys_exit(3), ExitRequest { status: 0x300, group_exit: false });
    assert_eq!(sys_exit_group(-1), ExitRequest { status: -256, group_exit: true });
    assert_eq!(sys_exit(0x1000000).status, 0);
    assert_eq!(mark_exited(false, 8), None);
    assert_eq!(mark_exited(true, 0), None);
    assert_eq!(mark_exited(true, 8), Some(8));
}

#[test]
fn a_last_thread_ends_its_process() {
    let thread = ExitingThread { clear_child_tid: 0x40, robust_list_head: 0x80 };
    let request = sys_exit_group(1);
    let mut phase = ExitPhase::Begun;
    assert_eq!(
        do_exit(&thread, &request, &mut phase, ExitEvent::Start),
        vec![ExitAction::WriteZero { at: 0x40 }]
    );
    assert_eq!(
        do_exit(&thread, &request, &mut phase, ExitEvent::Written { ok: true }),
        vec![
            ExitAction::WakeFutex { at: 0x40 },
            ExitAction::Yield,
            ExitAction::ExitRobustList { head: 0x80 },
            ExitAction::ExitThread { status: 0x100 },
        ]
    );
    let left = ExitEvent::Left { last: true, parent: Some(9), exit_signal: Some(17) };
    assert_eq!(
        do_exit(&thread, &request, &mut phase, left),
        vec![
            ExitAction::ExitProcess,
            ExitAction::SignalProcess { pid: 9, signo: 17 },
            ExitAction::WakeChildExit { pid: 9 },
            ExitAction::WakeExit,
            ExitAction::ClearSharedMemory,
            ExitAction::AskGroupExited,
        ]
    );
    assert_eq!(
        do_exit(&thread, &request, &mut phase, ExitEvent::Group { exited: false }),
        vec![
            ExitAction::GroupExit,
            ExitAction::SignalThreads { signo: 9 },
            ExitAction::SetExit,
        ]
    );
    assert_eq!(phase, ExitPhase::Exited);
}

#[test]
fn a_thread_among_others_just_exits() {
    let thread = ExitingThread { clear_child_tid: 0, robust_list_head: 0 };
    let request = sys_exit(0);
    let mut phase = ExitPhase::Begun;
    do_exit(&thread, &request, &mut phase, ExitEvent::Start);
    assert_eq!(
        do_exit(&thread, &request, &mut phase, ExitEvent::Written { ok: false }),
        vec![ExitAction::ExitThread { status: 0 }]
    );
    let left = ExitEvent::Left { last: false, parent: Some(9), exit_signal: Some(17) };
    assert_eq!(do_exit(&thread, &request, &mut phase, left), vec![ExitAction::SetExit]);
    assert_eq!(phase, ExitPhase::Exited);
}

#[test]
fn an_orphan_tells_nobody() {
    let thread = ExitingThread { clear_child_tid: 0, robust_list_head: 0 };
    let request = sys_exit_group(0);
    let mut phase = ExitPhase::Leaving;
    let left = ExitEvent::Left { last: true, parent: None, exit_signal: Some(17) };
    assert_eq!(
        do_exit(&thread, &request, &mut phase, left),
        vec![
            ExitAction::ExitProcess,
            ExitAction::WakeExit,
            ExitAction::ClearSharedMemory,
            ExitAction::AskGroupExited,
        ]
    );
    assert_eq!(
        do_exit(&thread, &request, &mut phase, ExitEvent::Group { exited: true }),
        vec![ExitAction::SetExit]
    );
}

#[test]
fn a_fatal_signal_interrupts_or_ends() {
    assert_eq!(
        raise_signal_fatal_for_task(Some(5), true, SIGSEGV),
        FatalSignal::Interrupt { tid: 5 }
    );
    let exit = FatalSignal::Exit { request: ExitRequest { status: 11, group_exit: true } };
    assert_eq!(raise_signal_fatal_for_task(Some(5), false, SIGSEGV), exit);
    assert_eq!(raise_signal_fatal_for_task(None, true, SIGSEGV), exit);
}

#[test]
fn robust_futexes_die_with_their_owner() {
    assert_eq!(handle_futex_death(0x100, -0x20), Ok(0xe0));
    assert_eq!(handle_futex_death(0x10, -0x20), Err(SysError::InvalidInput));
    assert_eq!(handle_futex_death(usize::MAX, 1), Err(SysError::InvalidInput));
    let head = RobustListHead {
        list: RobustList { next: 0x100 },
        futex_offset: 8,
        list_op_pending: 0x200,
    };
    let mut walk = exit_robust_list(0x1000, &head);
    assert_eq!(walk.next_read(), Some(0x100));
    assert_eq!(walk.visit(0x200), RobustVisit { dead: Some(0x108), error: None, yields: true });
    assert_eq!(walk.next_read(), Some(0x200));
    assert_eq!(walk.visit(0x1000), RobustVisit { dead: None, error: None, yields: true });
    assert_eq!(walk.next_read(), None);
}

#[test]
fn a_robust_list_that_runs_in_a_circle_is_left() {
    let head = RobustListHead {
        list: RobustList { next: 0x100 },
        futex_offset: 0,
        list_op_pending: 0,
    };
    let mut walk = exit_robust_list(0x1000, &head);
    let mut visits = 0;
    loop {
        assert_eq!(walk.next_read(), Some(0x100));
        let visit = walk.visit(0x100);
        visits += 1;
        assert_eq!(visit.dead, Some(0x100));
        if let Some(error) = visit.error {
            assert_eq!(error, SysError::FilesystemLoop);
            assert!(!visit.yields);
            break;
        }
    }
    assert_eq!(visits, 2048);
    let bad = RobustListHead { futex_offset: -0x200, ..head };
    let mut walk = exit_robust_list(0x1000, &bad);
    assert_eq!(
        walk.visit(0x1000),
        RobustVisit { dead: None, error: Some(SysError::InvalidInput), yields: false }
    );
    assert_eq!(walk.next_read(), Some(0x100));
}

fn child(pid: u32, pgid: u32, zombie: bool) -> Child {
    Child { pid, pgid, zombie, exit_code: pid as i32 * 256 }
}

#[test]
fn a_wait_means_some_children() {
    assert_eq!(WaitPid::parse(-1, 3), WaitPid::Any);
    assert_eq!(WaitPid::parse(0, 3), WaitPid::Pgid { pgid: 3 });
    assert_eq!(WaitPid::parse(8, 3), WaitPid::Pid { pid: 8 });
    assert_eq!(WaitPid::parse(-8, 3), WaitPid::Pgid { pgid: 8 });
    let children = vec![child(5, 1, false), child(6, 2, true), child(7, 1, true)];
    assert_eq!(select_children(&children, -1, 9).unwrap().len(), 3);
    assert_eq!(select_children(&children, 0, 1).unwrap(), vec![children[0], children[2]]);
    assert_eq!(select_children(&children, 9, 1), Err(SysError::NoChild));
    assert_eq!(
        check_children(&children, 0, 0x40),
        ChildCheck::Exited { pid: 6, exit_code: 6 * 256, free: true, write: 0x40 }
    );
    assert_eq!(
        check_children(&children, WNOWAIT, 0),
        ChildCheck::Exited { pid: 6, exit_code: 6 * 256, free: false, write: 0 }
    );
    assert_eq!(check_children(&vec![children[0]], 0, 0), ChildCheck::Wait);
    assert_eq!(check_children(&vec![children[0]], WNOHANG, 0), ChildCheck::NoneYet);
}

fn request(pid: i32, options: u32) -> WaitRequest {
    WaitRequest { pid, exit_code: 0x40, options, own_pgid: 1 }
}

fn waiting(phase: WaitPhase, chosen: Vec<u32>) -> Waiting {
    Waiting { phase, chosen }
}

#[test]
fn a_wait_sleeps_until_a_child_exits() {
    let all = || vec![child(5, 1, false), child(6, 2, true), child(7, 1, false)];
    let mut none = Waiting::new();
    assert_eq!(
        sys_waitpid_step(&request(9, 0), &mut none, &WaitEvent::Begun { children: all() }),
        WaitAction::Fail { error: SysError::NoChild }
    );
    assert_eq!(none.phase, WaitPhase::Over);
    let request = request(0, 0);
    let mut wait = Waiting::new();
    let begun = WaitEvent::Begun { children: all() };
    assert_eq!(sys_waitpid_step(&request, &mut wait, &begun), WaitAction::BlockOn);
    assert_eq!(wait.chosen, vec![5, 7]);
    let go_on = WaitEvent::Interrupted { yes: false };
    assert_eq!(sys_waitpid_step(&request, &mut wait, &go_on), WaitAction::Look);
    let alive = WaitEvent::Looked { children: vec![child(5, 1, false), child(7, 1, false)] };
    assert_eq!(sys_waitpid_step(&request, &mut wait, &alive), WaitAction::RegisterWaker);
    assert_eq!(wait.phase, WaitPhase::Blocking);
    assert_eq!(sys_waitpid_step(&request, &mut wait, &go_on), WaitAction::Look);
    let exited = WaitEvent::Looked { children: vec![child(5, 1, false), child(7, 1, true)] };
    assert_eq!(
        sys_waitpid_step(&request, &mut wait, &exited),
        WaitAction::Reap { pid: 7, exit_code: 7 * 256, free: true, write: 0x40 }
    );
    assert_eq!(wait.phase, WaitPhase::Writing { pid: 7 });
    let written = WaitEvent::Written { error: None };
    assert_eq!(
        sys_waitpid_step(&request, &mut wait, &written),
        WaitAction::Complete { value: 7 }
    );
    let error = SysError::Other { code: 14 };
    let mut wait = waiting(WaitPhase::Writing { pid: 7 }, vec![5, 7]);
    let refused = WaitEvent::Written { error: Some(error) };
    assert_eq!(sys_waitpid_step(&request, &mut wait, &refused), WaitAction::Fail { error });
    assert_eq!(wait.phase, WaitPhase::Over);
}

#[test]
fn a_wait_ends_at_once_if_it_is_told_to() {
    let mut wait = waiting(WaitPhase::Blocking, vec![5]);
    let alive = WaitEvent::Looked { children: vec![child(5, 1, false)] };
    assert_eq!(
        sys_waitpid_step(&request(-1, WNOHANG), &mut wait, &alive),
        WaitAction::Complete { value: 0 }
    );
    let mut wait = waiting(WaitPhase::Blocking, vec![5]);
    assert_eq!(
        sys_waitpid_step(&request(-1, 0), &mut wait, &WaitEvent::Interrupted { yes: true }),
        WaitAction::Fail { error: SysError::Interrupted }
    );
    assert_eq!(wait.phase, WaitPhase::Over);
}

#[test]
fn traps_ask_for_work_by_their_cause() {
    assert_eq!(vsched_trap_dispatcher(None, 0), TrapWork::Nothing);
    assert_eq!(
        vsched_trap_dispatcher(Some(frame(0x8000000000000009)), 0),
        TrapWork::Interrupt { scause: 0x8000000000000009 }
    );
    for (scause, read, write, execute) in
        [(12, false, false, true), (13, true, false, false), (15, false, true, false)]
    {
        assert_eq!(
            vsched_trap_dispatcher(Some(frame(scause)), 0),
            TrapWork::PageFault {
                vaddr: 0xabc,
                flags: MappingFlags { read, write, execute, user: true },
            }
        );
    }
    for (scause, signo) in [
        (0, SIGBUS),
        (1, SIGSEGV),
        (2, SIGILL),
        (3, SIGTRAP),
        (4, SIGBUS),
        (5, SIGSEGV),
        (6, SIGBUS),
        (7, SIGSEGV),
        (9, SIGTRAP),
    ] {
        assert_eq!(
            vsched_trap_dispatcher(Some(frame(scause)), 0),
            TrapWork::Signal { signo }
        );
    }
}

#[test]
fn a_system_call_changes_only_its_results() {
    let before = frame(8);
    let expected = syscall_context(&before, 0x22);
    assert_eq!(
        vsched_trap_dispatcher(Some(before), 0x22),
        TrapWork::Syscall { context: expected }
    );
    assert_eq!(expected.sepc, 0x104);
    assert_eq!(expected.sstatus, 0x22);
    assert_eq!(expected.regs, before.regs);
    let mut context = expected;
    context.regs.a0 = 99;
    context.regs.a1 = 98;
    context.regs.a2 = 97;
    let mut after = before;
    finish_syscall(&mut after, &context);
    assert_eq!(after.regs, UserGeneralRegs { a0: 99, a1: 98, ..before.regs });
    context.regs.sp = 0x9000;
    let mut moved = before;
    finish_syscall(&mut moved, &context);
    assert_eq!(moved.regs, UserGeneralRegs { sp: 0x9000, ..after.regs });
    assert_eq!(after.sepc, 0x104);
    assert_eq!(after.sstatus, 0x22);
    assert_eq!(after.scause, 8);
}

#[test]
fn a_system_call_writes_to_the_frame_of_its_task() {
    let mut tasks = SchedTasks::new();
    let start = KernelThreadStart { stack_top: None, kernel_gp: 0, entry: 0 };
    for addr in [0x1000, 0x2000] {
        let place = TaskPlacement { addr, stack: 0x10, frame: 0, start };
        let task = AxTask { id: 1, state: AxTaskState::Ready };
        register_task(&mut tasks, place, task, 0, 2, false, None, 0);
        vsched2_trap_entry(&mut tasks, frame(8), addr + 0x100, addr, 0);
    }
    let mut after = syscall_context(&frame(8), 0x22);
    set_exec_context(&mut after, 0x111, 0x222);
    after.regs.a0 = 0;
    write_back(&mut tasks, 0x1000, &after);
    let resume = read_frame(&tasks, 0x1000).unwrap().restore_and_sret(&UserGeneralRegs::default());
    assert_eq!((resume.pc, resume.regs.sp, resume.regs.a0), (0x111, 0x222, 0));
    assert_eq!(resume.regs.a3, 13);
    assert_eq!(read_frame(&tasks, 0x2000), Some(frame(8)));
}

#[test]
fn a_system_call_runs_under_a_running_task() {
    let mut task =
        VschedTaskImpl::new(AxTask { id: 1, state: AxTaskState::Ready }, 0, 1, false, None);
    begin_syscall(&mut task);
    assert_eq!(task.task.state, AxTaskState::Running);
}

#[test]
fn signals_and_faults_find_their_task() {
    assert_eq!(signal_subject(true, 8), TrapSubject::Trapped);
    assert_eq!(signal_subject(false, 8), TrapSubject::LastUser);
    assert_eq!(signal_subject(false, 0), TrapSubject::Trapped);
    assert_eq!(fault_subject(true, true, 8, true), TrapSubject::Trapped);
    assert_eq!(fault_subject(false, true, 8, true), TrapSubject::Current);
    assert_eq!(fault_subject(false, false, 8, true), TrapSubject::LastUser);
    assert_eq!(fault_subject(false, false, 8, false), TrapSubject::Nobody);
    assert_eq!(fault_subject(false, false, 0, true), TrapSubject::Nobody);
    assert!(!fault_fixed(TrapSubject::Trapped, true, false));
    assert!(fault_fixed(TrapSubject::Current, false, true));
    assert!(fault_fixed(TrapSubject::LastUser, true, false));
    assert!(!fault_fixed(TrapSubject::Nobody, true, true));
    assert_eq!(fault_signal(true), None);
    assert_eq!(fault_signal(false), Some(SIGSEGV));
}

fn after_return(reason: ReturnReason) -> (UserTaskPhase, UserTaskAction) {
    let exit = UserTaskEvent::PendingExit { yes: false };
    let (phase, action) = user_task_round(UserTaskPhase::AskingExit, exit);
    assert_eq!(action, UserTaskAction::RunUser);
    let (phase, action) = user_task_round(phase, UserTaskEvent::Returned { reason });
    assert_eq!(action, UserTaskAction::TimerToKernel);
    user_task_round(phase, UserTaskEvent::Done)
}

#[test]
fn a_user_task_goes_round() {
    assert_eq!(
        new_user_task(0, 5),
        (UserTaskPhase::AskingExit, UserTaskAction::AskPendingExit)
    );
    let (phase, action) = new_user_task(0x40, 5);
    assert_eq!(action, UserTaskAction::WriteTid { at: 0x40, tid: 5 });
    let (phase, action) = user_task_round(phase, UserTaskEvent::Done);
    assert_eq!(action, UserTaskAction::AskPendingExit);
    assert_eq!(
        user_task_round(phase, UserTaskEvent::PendingExit { yes: true }),
        (UserTaskPhase::Over, UserTaskAction::Finish)
    );

    let (phase, action) = after_return(ReturnReason::Syscall);
    assert_eq!(action, UserTaskAction::Work { work: UserWork::HandleSyscall });
    let (phase, action) = user_task_round(phase, UserTaskEvent::Done);
    assert_eq!(action, UserTaskAction::UnblockNextSignal);
    assert_eq!(
        user_task_round(phase, UserTaskEvent::Unblocked { yes: true }),
        (UserTaskPhase::LeavingKernel, UserTaskAction::TimerToUser)
    );
    let (phase, action) = user_task_round(phase, UserTaskEvent::Unblocked { yes: false });
    assert_eq!(action, UserTaskAction::CheckSignals);
    let (phase, action) = user_task_round(phase, UserTaskEvent::Checked { taken: true });
    assert_eq!(action, UserTaskAction::CheckSignals);
    let (phase, action) = user_task_round(phase, UserTaskEvent::Checked { taken: false });
    assert_eq!(action, UserTaskAction::TimerToUser);
    let (phase, action) = user_task_round(phase, UserTaskEvent::Done);
    assert_eq!(action, UserTaskAction::ClearInterrupt);
    assert_eq!(
        user_task_round(phase, UserTaskEvent::Done),
        (UserTaskPhase::AskingExit, UserTaskAction::AskPendingExit)
    );
}

#[test]
fn a_return_from_user_space_asks_for_work() {
    assert_eq!(
        after_return(ReturnReason::Interrupt),
        (UserTaskPhase::Unblocking, UserTaskAction::UnblockNextSignal)
    );
    for (reason, signo) in [
        (ReturnReason::Misaligned, SIGBUS),
        (ReturnReason::Breakpoint, SIGTRAP),
        (ReturnReason::IllegalInstruction, SIGILL),
        (ReturnReason::OtherException, SIGTRAP),
        (ReturnReason::Unknown, SIGSEGV),
    ] {
        let work = UserWork::Signal { signo };
        assert_eq!(after_return(reason), (UserTaskPhase::Working, UserTaskAction::Work { work }));
    }
    let flags = MappingFlags { read: true, write: false, execute: false, user: true };
    let (phase, action) = after_return(ReturnReason::PageFault { vaddr: 7, flags });
    let work = UserWork::HandlePageFault { vaddr: 7, flags };
    assert_eq!(action, UserTaskAction::Work { work });
    assert_eq!(
        user_task_round(phase, UserTaskEvent::Fixed { yes: true }).1,
        UserTaskAction::UnblockNextSignal
    );
    assert_eq!(
        user_task_round(phase, UserTaskEvent::Fixed { yes: false }).1,
        UserTaskAction::Work { work: UserWork::Signal { signo: SIGSEGV } }
    );
}

#[test]
fn signals_have_numbers() {
    assert_eq!(signal_from_number(0), None);
    assert_eq!(signal_from_number(64), Some(64));
    assert_eq!(signal_from_number(65), None);
}
