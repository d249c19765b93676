//! Replacing what a process runs.

use vstd::prelude::*;

use crate::laws::order::{
    in_order, in_order_within, lemma_in_one, lemma_in_parts, lemma_order_of_parts,
};
use crate::sched::trapframe::UserGeneralRegs;
use crate::syscall::context::{SysError, UserContext};
use crate::syscall::execve::{
    apply_exec_action, check_execve, check_threads, cloexec_fds, exec_actions, exec_process_actions,
    exec_vsched_actions, kept_on_exec, law_only_marked_files_are_closed, load_args,
    set_exec_context, sys_execve, ExecAction, ExecEvent, ExecImage, ExecPhase, ExecProcess,
    ExecScheduler,
};

verus! {

/// A call is refused with the first of the errors that its path, its arguments and its
/// environment gave; if there was none, it is refused exactly if the process has other threads.
pub proof fn law_exec_is_refused_for_its_first_error(
    path: Option<SysError>,
    argv: Option<SysError>,
    envp: Option<SysError>,
    threads: usize,
    r: Result<(), SysError>,
)
    requires
        call_ensures(check_execve, (path, argv, envp, threads), r),
    ensures
        r is Ok <==> path is None && argv is None && envp is None && threads <= 1,
        path matches Some(e) ==> r == Err::<(), SysError>(e),
        path is None && argv is Some ==> r == Err::<(), SysError>(argv.unwrap()),
        path is None && argv is None && envp is Some ==> r == Err::<(), SysError>(envp.unwrap()),
        path is None && argv is None && envp is None && threads > 1 ==> r == Err::<(), SysError>(
            SysError::WouldBlock,
        ),
{
}

/// Only a process with one thread can run another program.
pub proof fn law_only_one_thread_execs(threads: usize, r: Result<(), SysError>)
    requires
        call_ensures(check_threads, (threads,), r),
    ensures
        r is Ok <==> threads <= 1,
        r matches Err(e) ==> e == SysError::WouldBlock,
{
}

/// A list that is null has no strings, and any other is what was loaded.
pub proof fn law_null_list_is_empty(
    list: usize,
    loaded: Result<Vec<String>, SysError>,
    args: Result<Vec<String>, SysError>,
)
    requires
        call_ensures(load_args, (list, loaded), args),
    ensures
        list == 0 ==> (args matches Ok(a) && a@.len() == 0),
        list != 0 ==> args == loaded,
{
}

/// The order in which a program is replaced.
pub open spec fn exec_rank(action: ExecAction) -> int {
    match action {
        ExecAction::Load => 0,
        ExecAction::SwitchPageTable { .. } => 1,
        ExecAction::ProcessInit => 2,
        ExecAction::UserInit => 3,
        ExecAction::UnregisterUserTask { .. } => 4,
        ExecAction::SetTaskPid { .. } => 5,
        ExecAction::BindProcessId => 6,
        ExecAction::PublishVdsoBase { .. } => 7,
        ExecAction::RegisterUserTask { .. } => 8,
        ExecAction::DropOldProcess { .. } => 9,
        ExecAction::RestorePageTable { .. } => 10,
        ExecAction::ResolvePath => 11,
        ExecAction::SetName => 12,
        ExecAction::SetExePath => 13,
        ExecAction::SetCmdline => 14,
        ExecAction::ResetHeap { .. } => 15,
        ExecAction::ResetSignals => 16,
        ExecAction::ClearChildTid => 17,
        ExecAction::CloseFiles => 18,
        ExecAction::SetContext { .. } => 19,
        ExecAction::Complete { .. } => 20,
        ExecAction::Fail { .. } => 21,
    }
}

/// Whether an action belongs to what is done once the program is loaded.
pub open spec fn exec_does(
    image: ExecImage,
    scheduler: Option<ExecScheduler>,
    user_heap_base: usize,
    action: ExecAction,
) -> bool {
    match action {
        ExecAction::ResolvePath | ExecAction::SetName | ExecAction::SetExePath
        | ExecAction::SetCmdline | ExecAction::ResetSignals | ExecAction::ClearChildTid
        | ExecAction::CloseFiles => true,
        ExecAction::ResetHeap { top } => top == user_heap_base,
        ExecAction::SetContext { entry, stack } => entry == image.entry && stack == image.stack,
        ExecAction::Load | ExecAction::Complete { .. } | ExecAction::Fail { .. } => false,
        _ => match scheduler {
            None => false,
            Some(s) => {
                let switch = s.root != 0 && s.root != s.kernel_root;
                match action {
                    ExecAction::SwitchPageTable { root } => switch && root == s.root,
                    ExecAction::RestorePageTable { root } => switch && root == s.kernel_root,
                    ExecAction::UnregisterUserTask { task } => task == s.trapped,
                    ExecAction::SetTaskPid { task } => task == s.trapped,
                    ExecAction::PublishVdsoBase { task } => task == s.trapped,
                    ExecAction::RegisterUserTask { task } => task == s.trapped,
                    ExecAction::DropOldProcess { pid } => pid == s.old_pid,
                    _ => true,
                }
            },
        },
    }
}

proof fn lemma_vsched_part(
    s: ExecScheduler,
    image: ExecImage,
    user_heap_base: usize,
    action: ExecAction,
)
    ensures
        in_order_within(exec_vsched_actions(s), |a: ExecAction| exec_rank(a), 1, 11),
        exec_vsched_actions(s).contains(action) <==> 1 <= exec_rank(action) < 11 && exec_does(
            image,
            Some(s),
            user_heap_base,
            action,
        ),
{
    let rank = |a: ExecAction| exec_rank(a);
    let middle = seq![
        ExecAction::ProcessInit,
        ExecAction::UserInit,
        ExecAction::UnregisterUserTask { task: s.trapped },
        ExecAction::SetTaskPid { task: s.trapped },
        ExecAction::BindProcessId,
        ExecAction::PublishVdsoBase { task: s.trapped },
        ExecAction::RegisterUserTask { task: s.trapped },
        ExecAction::DropOldProcess { pid: s.old_pid },
    ];
    assert(middle[0] == ExecAction::ProcessInit && middle[1] == ExecAction::UserInit && middle[2]
        == (ExecAction::UnregisterUserTask { task: s.trapped }) && middle[3]
        == (ExecAction::SetTaskPid { task: s.trapped }) && middle[4] == ExecAction::BindProcessId
        && middle[5] == (ExecAction::PublishVdsoBase { task: s.trapped }) && middle[6]
        == (ExecAction::RegisterUserTask { task: s.trapped }) && middle[7]
        == (ExecAction::DropOldProcess { pid: s.old_pid }));
    let first = seq![ExecAction::SwitchPageTable { root: s.root }];
    let last = seq![ExecAction::RestorePageTable { root: s.kernel_root }];
    lemma_in_one(ExecAction::SwitchPageTable { root: s.root }, action);
    lemma_in_one(ExecAction::RestorePageTable { root: s.kernel_root }, action);
    lemma_in_parts(first, middle, action);
    lemma_in_parts(first + middle, last, action);
    assert(in_order_within(first, rank, 1, 2));
    assert(in_order_within(middle, rank, 2, 10));
    assert(in_order_within(last, rank, 10, 11));
    lemma_order_of_parts(first, middle, rank, 1, 2, 10);
    lemma_order_of_parts(first + middle, last, rank, 1, 10, 11);
    if s.root != 0 && s.root != s.kernel_root {
        assert(exec_vsched_actions(s) == first + middle + last);
    } else {
        assert(exec_vsched_actions(s) == middle);
    }
}

proof fn lemma_exec_actions(
    image: ExecImage,
    scheduler: Option<ExecScheduler>,
    user_heap_base: usize,
    action: ExecAction,
)
    ensures
        ({
            let all = exec_actions(image, scheduler, user_heap_base);
            &&& all.len() >= 9
            &&& in_order(all, |a: ExecAction| exec_rank(a))
            &&& all.contains(action) <==> exec_does(image, scheduler, user_heap_base, action)
        }),
{
    let rank = |a: ExecAction| exec_rank(a);
    let last = exec_process_actions(image, user_heap_base);
    assert(last[0] == ExecAction::ResolvePath && last[1] == ExecAction::SetName && last[2]
        == ExecAction::SetExePath && last[3] == ExecAction::SetCmdline && last[4]
        == (ExecAction::ResetHeap { top: user_heap_base }) && last[5] == ExecAction::ResetSignals
        && last[6] == ExecAction::ClearChildTid && last[7] == ExecAction::CloseFiles && last[8]
        == (ExecAction::SetContext { entry: image.entry, stack: image.stack }));
    assert(in_order_within(last, rank, 11, 20));
    assert(last.contains(action) <==> exec_rank(action) >= 11 && exec_does(
        image,
        scheduler,
        user_heap_base,
        action,
    ));
    if let Some(s) = scheduler {
        lemma_vsched_part(s, image, user_heap_base, action);
        lemma_in_parts(exec_vsched_actions(s), last, action);
        lemma_order_of_parts(exec_vsched_actions(s), last, rank, 1, 11, 20);
    }
}

/// A call starts with the loading of the program, unless it is refused; then nothing is done.
pub proof fn law_exec_loads_or_is_refused(
    path: Option<SysError>,
    argv: Option<SysError>,
    envp: Option<SysError>,
    threads: usize,
    user_heap_base: usize,
    next: (ExecPhase, ExecAction),
)
    requires
        call_ensures(
            sys_execve,
            (ExecPhase::Begun, ExecEvent::Read { path, argv, envp, threads }, user_heap_base),
            next,
        ),
    ensures
        path is None && argv is None && envp is None && threads <= 1 ==> next == (
            ExecPhase::Loading,
            ExecAction::Load,
        ),
        !(path is None && argv is None && envp is None && threads <= 1) ==> next.0
            == ExecPhase::Over && next.1 is Fail,
        path matches Some(error) ==> next.1 == (ExecAction::Fail { error }),
        path is None ==> (argv matches Some(error) ==> next.1 == (ExecAction::Fail { error })),
        path is None && argv is None ==> (envp matches Some(error) ==> next.1
            == (ExecAction::Fail { error })),
        path is None && argv is None && envp is None && threads > 1 ==> next.1
            == (ExecAction::Fail { error: SysError::WouldBlock }),
{
}

/// A failure ends the call with its error, whenever it comes.
pub proof fn law_failed_exec_is_over(
    phase: ExecPhase,
    error: SysError,
    user_heap_base: usize,
    next: (ExecPhase, ExecAction),
)
    requires
        call_ensures(sys_execve, (phase, ExecEvent::Failed { error }, user_heap_base), next),
        phase is Loading || phase is Replacing,
    ensures
        next == (ExecPhase::Over, ExecAction::Fail { error }),
{
}

/// Whether an action is the number `at` of those that follow the loading.
pub open spec fn is_exec_action(
    image: ExecImage,
    scheduler: Option<ExecScheduler>,
    user_heap_base: usize,
    at: int,
    action: ExecAction,
) -> bool {
    let all = exec_actions(image, scheduler, user_heap_base);
    0 <= at < all.len() && all[at] == action
}

/// Once the program is loaded, what is done is exactly what should be, each once and in order,
/// and the call returns 0 when all of it is done: the entry of the process with the scheduler
/// is replaced, in the new address space, if the scheduler runs; then the name, the path and the
/// arguments are set; and last the heap begins anew, signals are handled in the default ways,
/// files are closed, and the thread goes on at the loaded entry and on the loaded stack.
pub proof fn law_loaded_program_replaces_the_old_one(
    image: ExecImage,
    scheduler: Option<ExecScheduler>,
    at: usize,
    user_heap_base: usize,
    loaded: (ExecPhase, ExecAction),
    done: (ExecPhase, ExecAction),
    action: ExecAction,
)
    requires
        call_ensures(
            sys_execve,
            (ExecPhase::Loading, ExecEvent::Loaded { image, scheduler }, user_heap_base),
            loaded,
        ),
        call_ensures(
            sys_execve,
            (ExecPhase::Replacing { image, scheduler, at }, ExecEvent::Done, user_heap_base),
            done,
        ),
    ensures
        (exists|i: int| #[trigger] is_exec_action(image, scheduler, user_heap_base, i, action))
            <==> exec_does(image, scheduler, user_heap_base, action),
        in_order(exec_actions(image, scheduler, user_heap_base), |a: ExecAction| exec_rank(a)),
        is_exec_action(image, scheduler, user_heap_base, 0, loaded.1),
        loaded.0 == (ExecPhase::Replacing { image, scheduler, at: 0 }),
        at + 1 < exec_actions(image, scheduler, user_heap_base).len() ==> is_exec_action(
            image,
            scheduler,
            user_heap_base,
            at + 1,
            done.1,
        ) && done.0 == (ExecPhase::Replacing { image, scheduler, at: (at + 1) as usize }),
        at + 1 == exec_actions(image, scheduler, user_heap_base).len() ==> done == (
            ExecPhase::Over,
            ExecAction::Complete { value: 0 },
        ),
{
    lemma_exec_actions(image, scheduler, user_heap_base, action);
    let all = exec_actions(image, scheduler, user_heap_base);
    if all.contains(action) {
        assert(is_exec_action(image, scheduler, user_heap_base, all.index_of(action), action));
    }
    if exists|i: int| #[trigger] is_exec_action(image, scheduler, user_heap_base, i, action) {
        let i = choose|i: int| #[trigger]
            is_exec_action(image, scheduler, user_heap_base, i, action);
        assert(all[i] == action);
    }
}

/// A thread goes on at the entry and on the stack that it is given, and is otherwise as it was.
pub proof fn law_exec_sets_entry_and_stack(context: &mut UserContext, entry: usize, stack: usize)
    requires
        call_ensures(set_exec_context, (context, entry, stack), ()),
    ensures
        final(context).sepc == entry,
        final(context).regs.sp == stack,
        final(context).sstatus == old(context).sstatus,
        final(context).regs == (UserGeneralRegs { sp: stack, ..old(context).regs }),
{
}

/// The descriptors that are closed are exactly those of the files that are marked.
pub proof fn law_exactly_marked_files_are_closed(
    files: Vec<(usize, bool)>,
    fds: Vec<usize>,
    fd: usize,
)
    requires
        call_ensures(cloexec_fds, (&files,), fds),
    ensures
        fds@.contains(fd) <==> files@.contains((fd, true)),
{
    law_only_marked_files_are_closed(files@, files@.len(), fd);
    if files@.contains((fd, true)) {
        assert(files@[files@.index_of((fd, true))] == (fd, true));
    }
}

proof fn lemma_kept(files: Seq<(usize, bool)>, file: (usize, bool))
    ensures
        kept_on_exec(files).contains(file) <==> files.contains(file) && !file.1,
    decreases files.len(),
{
    reveal(Seq::filter);
    if files.len() > 0 {
        let before = files.drop_last();
        let last = files.last();
        lemma_kept(before, file);
        assert(files =~= before + seq![last]);
        lemma_in_parts(before, seq![last], file);
        lemma_in_one(last, file);
        if !last.1 {
            assert(kept_on_exec(files) =~= kept_on_exec(before) + seq![last]);
            lemma_in_parts(kept_on_exec(before), seq![last], file);
        } else {
            assert(kept_on_exec(files) =~= kept_on_exec(before));
        }
    }
}

/// Each action changes of the process exactly what it is for: the heap, the signals, the thread
/// ID, the files or the context.
pub proof fn law_exec_actions_change_what_they_are_for(
    process: &mut ExecProcess,
    action: ExecAction,
    file: (usize, bool),
)
    requires
        call_ensures(apply_exec_action, (process, action), ()),
    ensures
        action matches ExecAction::ResetHeap { top } ==> final(process).heap_top == top,
        !(action is ResetHeap) ==> final(process).heap_top == old(process).heap_top,
        action is ResetSignals ==> final(process).default_signals,
        !(action is ResetSignals) ==> final(process).default_signals == old(process).default_signals,
        action is ClearChildTid ==> final(process).clear_child_tid == 0,
        !(action is ClearChildTid) ==> final(process).clear_child_tid == old(process).clear_child_tid,
        action is CloseFiles ==> (final(process).files@.contains(file) <==> old(process).files@.contains(file) && !file.1),
        !(action is CloseFiles) ==> final(process).files@ == old(process).files@,
        action matches ExecAction::SetContext { entry, stack } ==> {
            &&& final(process).context.sepc == entry
            &&& final(process).context.regs == (UserGeneralRegs {
                sp: stack,
                ..old(process).context.regs
            })
            &&& final(process).context.sstatus == old(process).context.sstatus
        },
        !(action is SetContext) ==> final(process).context == old(process).context,
{
    lemma_kept(old(process).files@, file);
    assert(final(process)@.heap_top == final(process).heap_top);
    assert(final(process)@.files == final(process).files@);
    assert(final(process)@.context == final(process).context);
}

} // verus!
