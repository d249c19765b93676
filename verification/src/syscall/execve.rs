//! Replacing what a process runs.

use vstd::prelude::*;

use crate::sched::trapframe::{UserGeneralRegs, UserTrapFrame};
use crate::syscall::context::{frame_after_syscall, SysError, UserContext};

verus! {

/// Where a loaded program starts, and its stack.
#[derive(Clone, Copy, Debug, Eq, PartialEq, Structural)]
pub struct ExecImage {
    pub entry: usize,
    pub stack: usize,
}

/// What is done to run another program.
#[derive(Clone, Copy, Debug, Eq, PartialEq, Structural)]
pub enum ExecAction {
    /// Load the program into the address space of the process.
    Load,
    /// Switch to the page table of the new address space, and let the kernel access user
    /// memory.
    SwitchPageTable { root: usize },
    /// Make the scheduler's entry of the process in the new address space.
    ProcessInit,
    UserInit,
    /// Take back the slot of the task that trapped in the shared table, and its ID with it.
    UnregisterUserTask { task: usize },
    /// The task belongs to the new entry.
    SetTaskPid { task: usize },
    /// Keep the new entry with what the kernel has of the process.
    BindProcessId,
    /// Tell the task where the new address space has the scheduler's shared object.
    PublishVdsoBase { task: usize },
    /// Give the task a slot again, for the new entry.
    RegisterUserTask { task: usize },
    /// Let go of the scheduler's old entry.
    DropOldProcess { pid: usize },
    /// Switch back.
    RestorePageTable { root: usize },
    /// Find the program by its path. A failure is returned.
    ResolvePath,
    SetName,
    /// Keep the absolute path of the program. A failure is returned.
    SetExePath,
    SetCmdline,
    /// The heap begins anew, and ends where it begins.
    ResetHeap { top: usize },
    /// Signals are handled in the default ways.
    ResetSignals,
    /// The thread's ID is cleared nowhere when it exits.
    ClearChildTid,
    /// Close the files that are not kept.
    CloseFiles,
    /// Go on at the entry of the program, on its stack.
    SetContext { entry: usize, stack: usize },
    /// The system call is over, with this value.
    Complete { value: isize },
    /// The system call is over, with this error.
    Fail { error: SysError },
}

/// What the scheduler knows when a program is replaced.
#[derive(Clone, Copy, Debug, Eq, PartialEq, Structural)]
pub struct ExecScheduler {
    /// The root of the new address space's page table.
    pub root: usize,
    /// The root of the page table in use.
    pub kernel_root: usize,
    /// The task whose trap is handled, and the scheduler's entry that it belongs to.
    pub trapped: usize,
    pub old_pid: usize,
}

/// Whether the new page table has to be switched to.
pub open spec fn switches_page_table(scheduler: ExecScheduler) -> bool {
    scheduler.root != 0 && scheduler.root != scheduler.kernel_root
}

/// What is done for the external scheduler.
pub open spec fn exec_vsched_actions(scheduler: ExecScheduler) -> Seq<ExecAction> {
    let middle = seq![
        ExecAction::ProcessInit,
        ExecAction::UserInit,
        ExecAction::UnregisterUserTask { task: scheduler.trapped },
        ExecAction::SetTaskPid { task: scheduler.trapped },
        ExecAction::BindProcessId,
        ExecAction::PublishVdsoBase { task: scheduler.trapped },
        ExecAction::RegisterUserTask { task: scheduler.trapped },
        ExecAction::DropOldProcess { pid: scheduler.old_pid },
    ];
    if switches_page_table(scheduler) {
        seq![ExecAction::SwitchPageTable { root: scheduler.root }] + middle + seq![
            ExecAction::RestorePageTable { root: scheduler.kernel_root },
        ]
    } else {
        middle
    }
}

/// What is done for the process and the thread. Heaps begin at `user_heap_base`.
pub open spec fn exec_process_actions(image: ExecImage, user_heap_base: usize) -> Seq<ExecAction> {
    seq![
        ExecAction::ResolvePath,
        ExecAction::SetName,
        ExecAction::SetExePath,
        ExecAction::SetCmdline,
        ExecAction::ResetHeap { top: user_heap_base },
        ExecAction::ResetSignals,
        ExecAction::ClearChildTid,
        ExecAction::CloseFiles,
        ExecAction::SetContext { entry: image.entry, stack: image.stack },
    ]
}

/// All that is done once the program is loaded, in order. `scheduler` is there if the external
/// scheduler runs.
pub open spec fn exec_actions(
    image: ExecImage,
    scheduler: Option<ExecScheduler>,
    user_heap_base: usize,
) -> Seq<ExecAction> {
    match scheduler {
        Some(scheduler) => exec_vsched_actions(scheduler) + exec_process_actions(
            image,
            user_heap_base,
        ),
        None => exec_process_actions(image, user_heap_base),
    }
}

/// What a replacement of a program waits for.
#[derive(Clone, Copy, Debug, Eq, PartialEq, Structural)]
pub enum ExecPhase {
    /// To be told of its arguments.
    Begun,
    /// For the program to be loaded.
    Loading,
    /// For the action number `at` of those that follow the loading.
    Replacing { image: ExecImage, scheduler: Option<ExecScheduler>, at: usize },
    /// For nothing more.
    Over,
}

/// What a replacement of a program is told.
#[derive(Clone, Copy, Debug, Eq, PartialEq, Structural)]
pub enum ExecEvent {
    /// The errors that reading the path, the arguments and the environment gave, and how many
    /// threads the process has.
    Read {
        path: Option<SysError>,
        argv: Option<SysError>,
        envp: Option<SysError>,
        threads: usize,
    },
    /// The program is loaded.
    Loaded { image: ExecImage, scheduler: Option<ExecScheduler> },
    /// The action was carried out.
    Done,
    /// The action failed.
    Failed { error: SysError },
}

/// Whether an action can fail.
pub open spec fn exec_can_fail(action: ExecAction) -> bool {
    action is Load || action is ResolvePath || action is SetExePath
}

/// The events that can come in a phase. If the external scheduler runs, a task trapped.
pub open spec fn exec_expects(phase: ExecPhase, event: ExecEvent, user_heap_base: usize) -> bool {
    match (phase, event) {
        (ExecPhase::Begun, ExecEvent::Read { .. }) => true,
        (ExecPhase::Loading, ExecEvent::Loaded { scheduler, .. }) => scheduler matches Some(s)
            ==> s.trapped != 0,
        (ExecPhase::Loading, ExecEvent::Failed { .. }) => true,
        (ExecPhase::Replacing { image, scheduler, at }, ExecEvent::Done) => at < exec_actions(
            image,
            scheduler,
            user_heap_base,
        ).len(),
        (ExecPhase::Replacing { image, scheduler, at }, ExecEvent::Failed { .. }) => {
            let actions = exec_actions(image, scheduler, user_heap_base);
            at < actions.len() && exec_can_fail(actions[at as int])
        },
        _ => false,
    }
}

/// The next phase of a replacement of a program, and what it does.
pub open spec fn exec_next(phase: ExecPhase, event: ExecEvent, user_heap_base: usize) -> (
    ExecPhase,
    ExecAction,
) {
    match (phase, event) {
        (ExecPhase::Begun, ExecEvent::Read { path, argv, envp, threads }) => match exec_refusal(
            path,
            argv,
            envp,
            threads,
        ) {
            Some(error) => (ExecPhase::Over, ExecAction::Fail { error }),
            None => (ExecPhase::Loading, ExecAction::Load),
        },
        (_, ExecEvent::Failed { error }) => (ExecPhase::Over, ExecAction::Fail { error }),
        (ExecPhase::Loading, ExecEvent::Loaded { image, scheduler }) => (
            ExecPhase::Replacing { image, scheduler, at: 0 },
            exec_actions(image, scheduler, user_heap_base)[0],
        ),
        (ExecPhase::Replacing { image, scheduler, at }, _) => {
            let actions = exec_actions(image, scheduler, user_heap_base);
            if at + 1 < actions.len() {
                (
                    ExecPhase::Replacing { image, scheduler, at: (at + 1) as usize },
                    actions[at + 1],
                )
            } else {
                (ExecPhase::Over, ExecAction::Complete { value: 0 })
            }
        },
        _ => (phase, ExecAction::Load),
    }
}

/// The strings of an argument list: none if the list is null, and otherwise what was loaded.
/// `loaded` is not looked at if the list is null.
pub fn load_args(list: usize, loaded: Result<Vec<String>, SysError>) -> (args: Result<
    Vec<String>,
    SysError,
>)
    ensures
        list == 0 ==> (args matches Ok(a) && a@ == Seq::<String>::empty()),
        list != 0 ==> args == loaded,
{
    if list == 0 {
        Ok(Vec::new())
    } else {
        loaded
    }
}

/// What a call is refused with, in the order in which its parts are looked at: the path, the
/// arguments, the environment, and the number of threads.
pub open spec fn exec_refusal(
    path: Option<SysError>,
    argv: Option<SysError>,
    envp: Option<SysError>,
    threads: usize,
) -> Option<SysError> {
    if path is Some {
        path
    } else if argv is Some {
        argv
    } else if envp is Some {
        envp
    } else if threads > 1 {
        Some(SysError::WouldBlock)
    } else {
        None
    }
}

/// Says whether the call is refused before the program is loaded. Each part comes with the
/// error that loading it gave, if any.
pub fn check_execve(
    path: Option<SysError>,
    argv: Option<SysError>,
    envp: Option<SysError>,
    threads: usize,
) -> (r: Result<(), SysError>)
    ensures
        r == (match exec_refusal(path, argv, envp, threads) {
            Some(error) => Err::<(), SysError>(error),
            None => Ok(()),
        }),
{
    if let Some(error) = path {
        return Err(error);
    }
    if let Some(error) = argv {
        return Err(error);
    }
    if let Some(error) = envp {
        return Err(error);
    }
    check_threads(threads)
}

/// Whether a process with that many threads may run another program: only one thread may be
/// there.
pub fn check_threads(threads: usize) -> (r: Result<(), SysError>)
    ensures
        r == (if threads > 1 {
            Err::<(), SysError>(SysError::WouldBlock)
        } else {
            Ok(())
        }),
{
    if threads > 1 {
        return Err(SysError::WouldBlock);
    }
    Ok(())
}

fn push_vsched_actions(actions: &mut Vec<ExecAction>, scheduler: &ExecScheduler)
    requires
        old(actions)@.len() == 0,
    ensures
        final(actions)@ == exec_vsched_actions(*scheduler),
{
    let switch: bool = scheduler.root != 0 && scheduler.root != scheduler.kernel_root;
    if switch {
        actions.push(ExecAction::SwitchPageTable { root: scheduler.root });
    }
    actions.push(ExecAction::ProcessInit);
    actions.push(ExecAction::UserInit);
    actions.push(ExecAction::UnregisterUserTask { task: scheduler.trapped });
    actions.push(ExecAction::SetTaskPid { task: scheduler.trapped });
    actions.push(ExecAction::BindProcessId);
    actions.push(ExecAction::PublishVdsoBase { task: scheduler.trapped });
    actions.push(ExecAction::RegisterUserTask { task: scheduler.trapped });
    actions.push(ExecAction::DropOldProcess { pid: scheduler.old_pid });
    if switch {
        actions.push(ExecAction::RestorePageTable { root: scheduler.kernel_root });
    }
    assert(actions@ =~= exec_vsched_actions(*scheduler));
}

fn list_exec_actions(
    image: &ExecImage,
    scheduler: &Option<ExecScheduler>,
    user_heap_base: usize,
) -> (actions: Vec<ExecAction>)
    ensures
        actions@ == exec_actions(*image, *scheduler, user_heap_base),
{
    let mut actions: Vec<ExecAction> = Vec::new();
    if let Some(scheduler) = scheduler {
        push_vsched_actions(&mut actions, scheduler);
    }
    let ghost before = actions@;
    actions.push(ExecAction::ResolvePath);
    actions.push(ExecAction::SetName);
    actions.push(ExecAction::SetExePath);
    actions.push(ExecAction::SetCmdline);
    actions.push(ExecAction::ResetHeap { top: user_heap_base });
    actions.push(ExecAction::ResetSignals);
    actions.push(ExecAction::ClearChildTid);
    actions.push(ExecAction::CloseFiles);
    actions.push(ExecAction::SetContext { entry: image.entry, stack: image.stack });
    assert(actions@ =~= before + exec_process_actions(*image, user_heap_base));
    assert(actions@ =~= exec_actions(*image, *scheduler, user_heap_base));
    actions
}

/// Runs another program in the process: takes what came of the last action, and says what to
/// do next. It starts with the arguments of the call. Nothing is done for a call that is
/// refused. Heaps begin at `user_heap_base`.
pub fn sys_execve(phase: ExecPhase, event: ExecEvent, user_heap_base: usize) -> (next: (
    ExecPhase,
    ExecAction,
))
    requires
        exec_expects(phase, event, user_heap_base),
    ensures
        next == exec_next(phase, event, user_heap_base),
{
    match event {
        ExecEvent::Read { path, argv, envp, threads } => match check_execve(
            path,
            argv,
            envp,
            threads,
        ) {
            Err(error) => (ExecPhase::Over, ExecAction::Fail { error }),
            Ok(()) => (ExecPhase::Loading, ExecAction::Load),
        },
        ExecEvent::Failed { error } => (ExecPhase::Over, ExecAction::Fail { error }),
        ExecEvent::Loaded { image, scheduler } => {
            let actions: Vec<ExecAction> = list_exec_actions(&image, &scheduler, user_heap_base);
            (ExecPhase::Replacing { image, scheduler, at: 0 }, actions[0])
        },
        ExecEvent::Done => match phase {
            ExecPhase::Replacing { image, scheduler, at } => {
                let actions: Vec<ExecAction> = list_exec_actions(
                    &image,
                    &scheduler,
                    user_heap_base,
                );
                if at < actions.len() - 1 {
                    (ExecPhase::Replacing { image, scheduler, at: at + 1 }, actions[at + 1])
                } else {
                    (ExecPhase::Over, ExecAction::Complete { value: 0 })
                }
            },
            _ => (phase, ExecAction::Load),
        },
    }
}

/// The context of a thread that goes on at the entry of a program, on a new stack.
pub open spec fn exec_context(context: UserContext, entry: usize, stack: usize) -> UserContext {
    UserContext {
        regs: UserGeneralRegs { sp: stack, ..context.regs },
        sepc: entry,
        ..context
    }
}

/// Lets a thread go on at the entry of a program, on a new stack.
pub fn set_exec_context(context: &mut UserContext, entry: usize, stack: usize)
    ensures
        *final(context) == exec_context(*old(context), entry, stack),
{
    context.sepc = entry;
    context.regs.sp = stack;
}

/// The first `n` descriptors that are closed when another program is run.
pub open spec fn closed_on_exec(files: Seq<(usize, bool)>, n: nat) -> Seq<usize>
    decreases n,
{
    if n == 0 {
        Seq::empty()
    } else {
        let before = closed_on_exec(files, (n - 1) as nat);
        if files[n - 1].1 {
            before.push(files[n - 1].0)
        } else {
            before
        }
    }
}

/// The descriptors that are closed when another program is run. Each file comes with whether
/// it is closed then.
pub fn cloexec_fds(files: &Vec<(usize, bool)>) -> (fds: Vec<usize>)
    ensures
        fds@ == closed_on_exec(files@, files@.len()),
{
    let mut fds: Vec<usize> = Vec::new();
    let mut i: usize = 0;
    while i < files.len()
        invariant
            i <= files@.len(),
            fds@ == closed_on_exec(files@, i as nat),
        decreases files@.len() - i,
    {
        let (fd, cloexec): (usize, bool) = files[i];
        if cloexec {
            fds.push(fd);
        }
        i += 1;
    }
    fds
}

/// What a replacement of a program changes of the process and the thread that calls. A file is
/// its descriptor, and whether it is closed when another program is run.
pub struct ExecProcess {
    pub heap_top: usize,
    /// Every signal is handled in its default way.
    pub default_signals: bool,
    pub clear_child_tid: usize,
    pub files: Vec<(usize, bool)>,
    pub context: UserContext,
}

/// What an `ExecProcess` holds.
pub struct ExecView {
    pub heap_top: usize,
    pub default_signals: bool,
    pub clear_child_tid: usize,
    pub files: Seq<(usize, bool)>,
    pub context: UserContext,
}

impl View for ExecProcess {
    type V = ExecView;

    open spec fn view(&self) -> ExecView {
        ExecView {
            heap_top: self.heap_top,
            default_signals: self.default_signals,
            clear_child_tid: self.clear_child_tid,
            files: self.files@,
            context: self.context,
        }
    }
}

/// The files that stay open when another program is run.
pub open spec fn kept_on_exec(files: Seq<(usize, bool)>) -> Seq<(usize, bool)> {
    files.filter(|file: (usize, bool)| !file.1)
}

/// The process after an action.
pub open spec fn exec_applied(process: ExecView, action: ExecAction) -> ExecView {
    match action {
        ExecAction::ResetHeap { top } => ExecView { heap_top: top, ..process },
        ExecAction::ResetSignals => ExecView { default_signals: true, ..process },
        ExecAction::ClearChildTid => ExecView { clear_child_tid: 0, ..process },
        ExecAction::CloseFiles => ExecView { files: kept_on_exec(process.files), ..process },
        ExecAction::SetContext { entry, stack } => ExecView {
            context: exec_context(process.context, entry, stack),
            ..process
        },
        _ => process,
    }
}

/// The process after the first `n` actions.
pub open spec fn exec_ran(process: ExecView, actions: Seq<ExecAction>, n: nat) -> ExecView
    decreases n,
{
    if n == 0 {
        process
    } else {
        exec_applied(exec_ran(process, actions, (n - 1) as nat), actions[n - 1])
    }
}

fn keep_files(files: &Vec<(usize, bool)>) -> (kept: Vec<(usize, bool)>)
    ensures
        kept@ == kept_on_exec(files@),
{
    let ghost stays = |file: (usize, bool)| !file.1;
    let mut kept: Vec<(usize, bool)> = Vec::new();
    let mut i: usize = 0;
    proof {
        reveal(Seq::filter);
        assert(files@.take(0).filter(stays) =~= kept@);
    }
    while i < files.len()
        invariant
            i <= files@.len(),
            stays == |file: (usize, bool)| !file.1,
            kept@ == files@.take(i as int).filter(stays),
        decreases files@.len() - i,
    {
        let file: (usize, bool) = files[i];
        proof {
            let next = files@.take(i + 1);
            assert(next.drop_last() =~= files@.take(i as int));
            reveal(Seq::filter);
        }
        if !file.1 {
            kept.push(file);
        }
        i += 1;
    }
    assert(files@.take(i as int) =~= files@);
    kept
}

/// Carries out an action, as far as it is about the process and the thread that calls.
pub fn apply_exec_action(process: &mut ExecProcess, action: ExecAction)
    ensures
        final(process)@ == exec_applied(old(process)@, action),
{
    match action {
        ExecAction::ResetHeap { top } => {
            process.heap_top = top;
        },
        ExecAction::ResetSignals => {
            process.default_signals = true;
        },
        ExecAction::ClearChildTid => {
            process.clear_child_tid = 0;
        },
        ExecAction::CloseFiles => {
            process.files = keep_files(&process.files);
        },
        ExecAction::SetContext { entry, stack } => {
            set_exec_context(&mut process.context, entry, stack);
        },
        _ => {},
    }
}

/// A call of a process with other threads is refused, and nothing is done for it.
pub proof fn law_threads_refuse_exec(threads: usize, user_heap_base: usize)
    requires
        threads > 1,
    ensures
        exec_next(
            ExecPhase::Begun,
            ExecEvent::Read { path: None, argv: None, envp: None, threads },
            user_heap_base,
        ) == (ExecPhase::Over, ExecAction::Fail { error: SysError::WouldBlock }),
{
}

proof fn lemma_first_actions_change_nothing(
    process: ExecView,
    image: ExecImage,
    scheduler: Option<ExecScheduler>,
    user_heap_base: usize,
    n: nat,
)
    requires
        n + 5 <= exec_actions(image, scheduler, user_heap_base).len(),
    ensures
        exec_ran(process, exec_actions(image, scheduler, user_heap_base), n) == process,
    decreases n,
{
    if n > 0 {
        let actions = exec_actions(image, scheduler, user_heap_base);
        if n - 1 >= actions.len() - 9 {
            lemma_last_actions(image, scheduler, user_heap_base, n - 1 - (actions.len() - 9));
        } else {
            assert(actions[n - 1] == exec_vsched_actions(scheduler->Some_0)[n - 1]);
        }
        lemma_first_actions_change_nothing(
            process,
            image,
            scheduler,
            user_heap_base,
            (n - 1) as nat,
        );
    }
}

proof fn lemma_last_actions(
    image: ExecImage,
    scheduler: Option<ExecScheduler>,
    user_heap_base: usize,
    k: int,
)
    requires
        0 <= k < 9,
    ensures
        ({
            let actions = exec_actions(image, scheduler, user_heap_base);
            actions.len() >= 9 && actions[actions.len() - 9 + k] == exec_process_actions(
                image,
                user_heap_base,
            )[k]
        }),
{
}

proof fn lemma_no_action_ends_the_call(
    image: ExecImage,
    scheduler: Option<ExecScheduler>,
    user_heap_base: usize,
    i: int,
)
    requires
        0 <= i < exec_actions(image, scheduler, user_heap_base).len(),
    ensures
        !(exec_actions(image, scheduler, user_heap_base)[i] is Complete),
        !(exec_actions(image, scheduler, user_heap_base)[i] is Fail),
{
    let actions = exec_actions(image, scheduler, user_heap_base);
    if i >= actions.len() - 9 {
        lemma_last_actions(image, scheduler, user_heap_base, i - (actions.len() - 9));
    } else {
        assert(actions[i] == exec_vsched_actions(scheduler->Some_0)[i]);
    }
}

proof fn lemma_all_actions_ran(
    process: ExecView,
    image: ExecImage,
    scheduler: Option<ExecScheduler>,
    user_heap_base: usize,
)
    ensures
        ({
            let actions = exec_actions(image, scheduler, user_heap_base);
            exec_ran(process, actions, actions.len()) == ExecView {
                heap_top: user_heap_base,
                default_signals: true,
                clear_child_tid: 0,
                files: kept_on_exec(process.files),
                context: exec_context(process.context, image.entry, image.stack),
            }
        }),
{
    let actions = exec_actions(image, scheduler, user_heap_base);
    lemma_last_actions(image, scheduler, user_heap_base, 4);
    lemma_last_actions(image, scheduler, user_heap_base, 5);
    lemma_last_actions(image, scheduler, user_heap_base, 6);
    lemma_last_actions(image, scheduler, user_heap_base, 7);
    lemma_last_actions(image, scheduler, user_heap_base, 8);
    let n = (actions.len() - 5) as nat;
    lemma_first_actions_change_nothing(process, image, scheduler, user_heap_base, n);
    let heap = ExecView { heap_top: user_heap_base, ..process };
    let signals = ExecView { default_signals: true, ..heap };
    let thread = ExecView { clear_child_tid: 0, ..signals };
    let files = ExecView { files: kept_on_exec(process.files), ..thread };
    assert(exec_ran(process, actions, n + 1) == heap);
    assert(exec_ran(process, actions, n + 2) == signals);
    assert(exec_ran(process, actions, n + 3) == thread);
    assert(exec_ran(process, actions, n + 4) == files);
}

/// A call that succeeds returns 0, and then the thread goes on at the loaded entry, on the
/// loaded stack; the heap begins anew, signals are handled in the default ways, no thread ID is
/// cleared, and of the files exactly those are left that were not to be closed.
pub proof fn law_exec_replaces_the_program(
    process: ExecView,
    image: ExecImage,
    scheduler: Option<ExecScheduler>,
    user_heap_base: usize,
    phase: ExecPhase,
    event: ExecEvent,
    value: isize,
)
    requires
        exec_expects(phase, event, user_heap_base),
        exec_next(phase, event, user_heap_base).1 == (ExecAction::Complete { value }),
        phase matches ExecPhase::Replacing { image: i, scheduler: s, .. } ==> i == image && s
            == scheduler,
    ensures
        value == 0,
        ({
            let actions = exec_actions(image, scheduler, user_heap_base);
            &&& phase == ExecPhase::Replacing { image, scheduler, at: (actions.len() - 1) as usize }
            &&& exec_ran(process, actions, actions.len()) == ExecView {
                heap_top: user_heap_base,
                default_signals: true,
                clear_child_tid: 0,
                files: kept_on_exec(process.files),
                context: exec_context(process.context, image.entry, image.stack),
            }
        }),
{
    if let ExecPhase::Replacing { at, .. } = phase {
        if at + 1 < exec_actions(image, scheduler, user_heap_base).len() {
            lemma_no_action_ends_the_call(image, scheduler, user_heap_base, at + 1);
        }
    }
    if let ExecEvent::Loaded { image: i, scheduler: s } = event {
        lemma_no_action_ends_the_call(i, s, user_heap_base, 0);
    }
    lemma_all_actions_ran(process, image, scheduler, user_heap_base);
}

/// A user task whose program was replaced goes on at the entry of the program, on its stack,
/// once the call has written back to the frame of the task.
pub proof fn law_replaced_program_starts_on_its_stack(
    frame: UserTrapFrame,
    context: UserContext,
    image: ExecImage,
    live: UserGeneralRegs,
)
    ensures
        ({
            let after = exec_context(context, image.entry, image.stack);
            let point = frame_after_syscall(frame, after).left(live);
            &&& point.pc == image.entry
            &&& point.regs.sp == image.stack
        }),
{
}

/// A call that fails has changed neither where the thread goes on, nor the heap, the handling
/// of signals or the files.
pub proof fn law_failed_exec_changes_nothing(
    process: ExecView,
    phase: ExecPhase,
    event: ExecEvent,
    user_heap_base: usize,
    error: SysError,
)
    requires
        exec_expects(phase, event, user_heap_base),
        exec_next(phase, event, user_heap_base).1 == (ExecAction::Fail { error }),
    ensures
        exec_next(phase, event, user_heap_base).0 == ExecPhase::Over,
        phase matches ExecPhase::Replacing { image, scheduler, at } ==> exec_ran(
            process,
            exec_actions(image, scheduler, user_heap_base),
            at as nat,
        ) == process,
        !(phase is Replacing) ==> phase is Begun || phase is Loading,
{
    if let ExecEvent::Loaded { image, scheduler } = event {
        lemma_no_action_ends_the_call(image, scheduler, user_heap_base, 0);
    }
    if let ExecPhase::Replacing { image, scheduler, at } = phase {
        let actions = exec_actions(image, scheduler, user_heap_base);
        if at + 1 < actions.len() {
            lemma_no_action_ends_the_call(image, scheduler, user_heap_base, at + 1);
        }
        if at + 5 > actions.len() {
            lemma_last_actions(image, scheduler, user_heap_base, at - (actions.len() - 9));
        }
        lemma_first_actions_change_nothing(
            process,
            image,
            scheduler,
            user_heap_base,
            at as nat,
        );
    }
}

/// Each action that is done is followed by the next one of the list, and the last one ends the
/// call.
pub proof fn law_exec_actions_come_in_order(
    image: ExecImage,
    scheduler: Option<ExecScheduler>,
    user_heap_base: usize,
    at: usize,
)
    requires
        at < exec_actions(image, scheduler, user_heap_base).len(),
    ensures
        ({
            let actions = exec_actions(image, scheduler, user_heap_base);
            let phase = ExecPhase::Replacing { image, scheduler, at };
            let next = exec_next(phase, ExecEvent::Done, user_heap_base);
            &&& exec_next(
                ExecPhase::Loading,
                ExecEvent::Loaded { image, scheduler },
                user_heap_base,
            ) == (ExecPhase::Replacing { image, scheduler, at: 0 }, actions[0])
            &&& next.1 == if at + 1 < actions.len() {
                actions[at + 1]
            } else {
                ExecAction::Complete { value: 0 }
            }
            &&& next.0 == if at + 1 < actions.len() {
                ExecPhase::Replacing { image, scheduler, at: (at + 1) as usize }
            } else {
                ExecPhase::Over
            }
        }),
{
}

/// The page table that was in use is in use again before anything can fail.
pub proof fn law_exec_restores_the_page_table(
    image: ExecImage,
    scheduler: ExecScheduler,
    user_heap_base: usize,
    i: int,
)
    requires
        switches_page_table(scheduler),
        0 <= i < exec_actions(image, Some(scheduler), user_heap_base).len(),
    ensures
        ({
            let actions = exec_actions(image, Some(scheduler), user_heap_base);
            &&& actions[i] is SwitchPageTable <==> i == 0
            &&& actions[i] is RestorePageTable <==> i == 9
            &&& exec_can_fail(actions[i]) ==> i > 9
            &&& actions[9] == ExecAction::RestorePageTable { root: scheduler.kernel_root }
        }),
{
    let actions = exec_actions(image, Some(scheduler), user_heap_base);
    if i > 9 {
        assert(actions[i] == exec_process_actions(image, user_heap_base)[i - 10]);
    } else {
        assert(actions[i] == exec_vsched_actions(scheduler)[i]);
    }
}

/// When a program is replaced, the slot of the task is taken back before the task changes its
/// entry, and the task gets another slot, for the new entry, before the old entry goes.
pub proof fn law_exec_replaces_the_slot(scheduler: ExecScheduler)
    ensures
        ({
            let actions = exec_vsched_actions(scheduler);
            let first = if switches_page_table(scheduler) {
                1int
            } else {
                0
            };
            let task = scheduler.trapped;
            &&& actions[first] is ProcessInit
            &&& actions[first + 2] == ExecAction::UnregisterUserTask { task }
            &&& actions[first + 3] == ExecAction::SetTaskPid { task }
            &&& actions[first + 4] is BindProcessId
            &&& actions[first + 5] == ExecAction::PublishVdsoBase { task }
            &&& actions[first + 6] == ExecAction::RegisterUserTask { task }
            &&& actions[first + 7] == ExecAction::DropOldProcess { pid: scheduler.old_pid }
        }),
{
}

/// The files that are left open are those that were not to be closed.
pub proof fn law_only_marked_files_are_closed(files: Seq<(usize, bool)>, n: nat, fd: usize)
    requires
        n <= files.len(),
    ensures
        closed_on_exec(files, n).contains(fd) <==> exists|i: int|
            0 <= i < n && #[trigger] files[i] == (fd, true),
    decreases n,
{
    if n > 0 {
        let m = (n - 1) as nat;
        law_only_marked_files_are_closed(files, m, fd);
        let before = closed_on_exec(files, m);
        if files[n - 1].1 {
            let all = before.push(files[n - 1].0);
            if before.contains(fd) {
                let j = choose|j: int| 0 <= j < before.len() && before[j] == fd;
                assert(all[j] == fd);
            }
            if files[n - 1].0 == fd {
                assert(all[before.len() as int] == fd);
            }
            if all.contains(fd) {
                let j = choose|j: int| 0 <= j < all.len() && all[j] == fd;
                if j < before.len() {
                    assert(before[j] == fd);
                } else {
                    assert(files[n - 1] == (fd, true));
                }
            }
        }
    }
}

proof fn lemma_kept_files(files: Seq<(usize, bool)>, file: (usize, bool))
    ensures
        kept_on_exec(files).contains(file) <==> files.contains(file) && !file.1,
    decreases files.len(),
{
    reveal(Seq::filter);
    if files.len() > 0 {
        let before = files.drop_last();
        lemma_kept_files(before, file);
        let last = files.last();
        assert(files =~= before.push(last));
        assert(files.contains(file) <==> before.contains(file) || file == last) by {
            if before.contains(file) {
                assert(files[before.index_of(file)] == file);
            }
            if file == last {
                assert(files[files.len() - 1] == file);
            }
            if files.contains(file) && file != last {
                assert(before[files.index_of(file)] == file);
            }
        }
        if !last.1 {
            let kept = kept_on_exec(before);
            let all = kept.push(last);
            assert(kept_on_exec(files) == all);
            if kept.contains(file) {
                assert(all[kept.index_of(file)] == file);
            }
            if file == last {
                assert(all[all.len() - 1] == file);
            }
            if all.contains(file) && file != last {
                assert(kept[all.index_of(file)] == file);
            }
        } else {
            assert(kept_on_exec(files) == kept_on_exec(before));
        }
    }
}

/// The files that stay open are the others than those whose descriptors are closed, in a table
/// that has no descriptor twice.
pub proof fn law_the_other_files_stay_open(files: Seq<(usize, bool)>, file: (usize, bool))
    requires
        forall|i: int, j: int|
            0 <= i < j < files.len() ==> (#[trigger] files[i]).0 != (#[trigger] files[j]).0,
    ensures
        kept_on_exec(files).contains(file) <==> files.contains(file) && !closed_on_exec(
            files,
            files.len(),
        ).contains(file.0),
{
    lemma_kept_files(files, file);
    law_only_marked_files_are_closed(files, files.len(), file.0);
    if files.contains(file) {
        let i = files.index_of(file);
        assert(files[i] == file);
        if closed_on_exec(files, files.len()).contains(file.0) {
            let j = choose|j: int|
                0 <= j < files.len() && #[trigger] files[j] == (file.0, true);
            assert(i == j);
        }
        if file.1 {
            assert(files[i] == (file.0, true));
        }
    }
}

} // verus!
