//! Ending threads and processes, and waiting for children.

use vstd::prelude::*;

use crate::axtask::waker::Interrupted;
use crate::laws::order::{
    in_order, in_order_within, lemma_in_one, lemma_in_parts, lemma_in_three, lemma_in_two,
    lemma_order_of_parts,
};
use crate::syscall::context::{signal_from_number, SysError};
use crate::syscall::exit::{
    do_exit, exit_actions, exit_robust_list, group_actions, handle_futex_death, mark_exited,
    process_exit_actions, raise_signal_fatal_for_task, sys_exit, sys_exit_group, ExitAction,
    ExitEvent, ExitPhase, ExitRequest, ExitingThread, FatalSignal, RobustListHead, RobustVisit,
    RobustWalk,
};
use crate::syscall::wait::{
    check_children, first_zombie, meant_children, pids, select_children, sys_waitpid_step, Child,
    ChildCheck, WaitAction, WaitEvent, WaitPhase, WaitPid, WaitRequest, Waiting,
};

verus! {

/// An exit carries the lowest byte of its code to where a parent reads it, and nothing else;
/// only a group exit ends the other threads.
pub proof fn law_exit_carries_its_code(
    code: i32,
    thread: ExitRequest,
    group: ExitRequest,
)
    requires
        call_ensures(sys_exit, (code,), thread),
        call_ensures(sys_exit_group, (code,), group),
    ensures
        !thread.group_exit,
        group.group_exit,
        thread.status == group.status,
        (thread.status as u32) & 0xff == 0,
        (thread.status as u32) / 256 == (code as u32) % 0x1000000,
{
    let bits = code as u32;
    assert({
        let status = ((bits << 8u32) as i32) as u32;
        status & 0xff == 0 && status / 256 == bits % 0x1000000
    }) by (bit_vector);
}

/// The task of the external scheduler that trapped exits with its thread, if that scheduler
/// runs.
pub proof fn law_trapped_task_exits_with_its_thread(
    active: bool,
    trapped: usize,
    task: Option<usize>,
)
    requires
        call_ensures(mark_exited, (active, trapped), task),
    ensures
        task is Some <==> active && trapped != 0,
        task matches Some(t) ==> t == trapped,
{
}

/// The order in which a thread exits.
pub open spec fn exit_rank(action: ExitAction) -> int {
    match action {
        ExitAction::WriteZero { .. } => 0,
        ExitAction::WakeFutex { .. } => 1,
        ExitAction::Yield => 2,
        ExitAction::ExitRobustList { .. } => 3,
        ExitAction::ExitThread { .. } => 4,
        ExitAction::ExitProcess => 5,
        ExitAction::SignalProcess { .. } => 6,
        ExitAction::WakeChildExit { .. } => 7,
        ExitAction::WakeExit => 8,
        ExitAction::ClearSharedMemory => 9,
        ExitAction::AskGroupExited => 10,
        ExitAction::GroupExit => 11,
        ExitAction::SignalThreads { .. } => 12,
        ExitAction::SetExit => 13,
    }
}

/// Whether an action is done when an event comes in the exit of a thread.
pub open spec fn exit_does(
    thread: ExitingThread,
    request: ExitRequest,
    event: ExitEvent,
    action: ExitAction,
) -> bool {
    match event {
        ExitEvent::Start => action == (ExitAction::WriteZero { at: thread.clear_child_tid }),
        ExitEvent::Written { ok } => match action {
            ExitAction::WakeFutex { at } => ok && at == thread.clear_child_tid,
            ExitAction::Yield => ok,
            ExitAction::ExitRobustList { head } => head != 0 && head == thread.robust_list_head,
            ExitAction::ExitThread { status } => status == request.status,
            _ => false,
        },
        ExitEvent::Left { last, parent, exit_signal } => match action {
            ExitAction::ExitProcess | ExitAction::WakeExit | ExitAction::ClearSharedMemory => last,
            ExitAction::SignalProcess { pid, signo } => last && parent == Some(pid) && exit_signal
                == Some(signo),
            ExitAction::WakeChildExit { pid } => last && parent == Some(pid),
            ExitAction::AskGroupExited => request.group_exit,
            ExitAction::SetExit => !request.group_exit,
            _ => false,
        },
        ExitEvent::Group { exited } => match action {
            ExitAction::GroupExit => !exited,
            ExitAction::SignalThreads { signo } => !exited && signo == 9,
            ExitAction::SetExit => true,
            _ => false,
        },
    }
}

proof fn lemma_exit_actions(
    thread: ExitingThread,
    request: ExitRequest,
    event: ExitEvent,
    action: ExitAction,
)
    ensures
        exit_actions(thread, request, event).contains(action) <==> exit_does(
            thread,
            request,
            event,
            action,
        ),
        in_order(exit_actions(thread, request, event), |a: ExitAction| exit_rank(a)),
{
    let rank = |a: ExitAction| exit_rank(a);
    let all = exit_actions(thread, request, event);
    match event {
        ExitEvent::Start => {
            lemma_in_one(ExitAction::WriteZero { at: thread.clear_child_tid }, action);
        },
        ExitEvent::Written { ok } => {
            let woken = if ok {
                seq![ExitAction::WakeFutex { at: thread.clear_child_tid }, ExitAction::Yield]
            } else {
                Seq::<ExitAction>::empty()
            };
            let robust = if thread.robust_list_head != 0 {
                seq![ExitAction::ExitRobustList { head: thread.robust_list_head }]
            } else {
                Seq::<ExitAction>::empty()
            };
            let last = seq![ExitAction::ExitThread { status: request.status }];
            assert(all == woken + robust + last);
            lemma_in_parts(woken + robust, last, action);
            lemma_in_parts(woken, robust, action);
            lemma_in_two(
                ExitAction::WakeFutex { at: thread.clear_child_tid },
                ExitAction::Yield,
                action,
            );
            lemma_in_one(ExitAction::ExitRobustList { head: thread.robust_list_head }, action);
            lemma_in_one(ExitAction::ExitThread { status: request.status }, action);
            assert(in_order_within(woken, rank, 1, 3));
            assert(in_order_within(robust, rank, 3, 4));
            assert(in_order_within(last, rank, 4, 5));
            lemma_order_of_parts(woken, robust, rank, 1, 3, 4);
            lemma_order_of_parts(woken + robust, last, rank, 1, 4, 5);
        },
        ExitEvent::Left { last, parent, exit_signal } => {
            let told = match (parent, exit_signal) {
                (Some(pid), Some(signo)) => seq![
                    ExitAction::SignalProcess { pid, signo },
                    ExitAction::WakeChildExit { pid },
                ],
                (Some(pid), None) => seq![ExitAction::WakeChildExit { pid }],
                (None, _) => Seq::<ExitAction>::empty(),
            };
            let first = seq![ExitAction::ExitProcess];
            let done = seq![ExitAction::WakeExit, ExitAction::ClearSharedMemory];
            assert(process_exit_actions(parent, exit_signal) == first + told + done);
            let process = if last {
                first + told + done
            } else {
                Seq::<ExitAction>::empty()
            };
            let end = if request.group_exit {
                ExitAction::AskGroupExited
            } else {
                ExitAction::SetExit
            };
            assert(all =~= process + seq![end]);
            lemma_in_parts(process, seq![end], action);
            lemma_in_parts(first + told, done, action);
            lemma_in_parts(first, told, action);
            lemma_in_one(end, action);
            lemma_in_one(ExitAction::ExitProcess, action);
            lemma_in_two(ExitAction::WakeExit, ExitAction::ClearSharedMemory, action);
            if let Some(pid) = parent {
                lemma_in_one(ExitAction::WakeChildExit { pid }, action);
                if let Some(signo) = exit_signal {
                    lemma_in_two(
                        ExitAction::SignalProcess { pid, signo },
                        ExitAction::WakeChildExit { pid },
                        action,
                    );
                }
            }
            assert(in_order_within(first, rank, 5, 6));
            assert(in_order_within(told, rank, 6, 8));
            assert(in_order_within(done, rank, 8, 10));
            lemma_order_of_parts(first, told, rank, 5, 6, 8);
            lemma_order_of_parts(first + told, done, rank, 5, 8, 10);
            assert(in_order_within(process, rank, 5, 10));
            assert(in_order_within(seq![end], rank, 10, 14));
            lemma_order_of_parts(process, seq![end], rank, 5, 10, 14);
        },
        ExitEvent::Group { exited } => {
            assert(all == group_actions(exited));
            lemma_in_one(ExitAction::SetExit, action);
            lemma_in_three(
                ExitAction::GroupExit,
                ExitAction::SignalThreads { signo: 9 },
                ExitAction::SetExit,
                action,
            );
        },
    }
}

/// What is done in an exit is exactly this, each once and in order: the thread's ID is cleared,
/// those that wait for that are woken if it could be, its robust futexes are given up, and it
/// leaves its process. With its last thread the process ends, and its parent is told, by the
/// signal that was asked for, and woken. A group exit, and no other, then asks whether the group
/// exits already, whether or not the thread was the last; unless it does, every thread of the
/// process is killed before the thread has exited.
pub proof fn law_exit_does_what_it_should(
    thread: ExitingThread,
    request: ExitRequest,
    phase: &mut ExitPhase,
    event: ExitEvent,
    actions: Vec<ExitAction>,
    action: ExitAction,
)
    requires
        call_ensures(do_exit, (&thread, &request, phase, event), actions),
    ensures
        actions@.contains(action) <==> exit_does(thread, request, event, action),
        in_order(actions@, |a: ExitAction| exit_rank(a)),
        event is Start ==> *final(phase) == ExitPhase::Clearing,
        event is Written ==> *final(phase) == ExitPhase::Leaving,
        event is Left ==> *final(phase) == (if request.group_exit {
            ExitPhase::Grouping
        } else {
            ExitPhase::Exited
        }),
        event is Group ==> *final(phase) == ExitPhase::Exited,
{
    lemma_exit_actions(thread, request, event, action);
}

/// A thread has exited exactly when that is the last thing that is done.
pub proof fn law_exit_ends_with_the_thread(
    thread: ExitingThread,
    request: ExitRequest,
    phase: &mut ExitPhase,
    event: ExitEvent,
    actions: Vec<ExitAction>,
)
    requires
        call_ensures(do_exit, (&thread, &request, phase, event), actions),
    ensures
        actions@.contains(ExitAction::SetExit) <==> *final(phase) == ExitPhase::Exited,
        actions@.contains(ExitAction::AskGroupExited) <==> *final(phase) == ExitPhase::Grouping,
{
    lemma_exit_actions(thread, request, event, ExitAction::SetExit);
    lemma_exit_actions(thread, request, event, ExitAction::AskGroupExited);
}

/// A fatal signal goes to a thread that is there; without one the whole process exits with the
/// number of the signal.
pub proof fn law_fatal_signal_ends_a_thread_or_the_process(
    receiver: Option<u32>,
    found: bool,
    signo: u8,
    r: FatalSignal,
)
    requires
        call_ensures(raise_signal_fatal_for_task, (receiver, found, signo), r),
    ensures
        receiver matches Some(tid) ==> found ==> r == (FatalSignal::Interrupt { tid }),
        receiver is None || !found ==> r is Exit,
        r matches FatalSignal::Exit { request } ==> request.status == signo && request.group_exit,
{
}

/// The futex of an entry lies at the offset from it; it is an error if that is no address.
pub proof fn law_futex_lies_at_its_offset(entry: usize, offset: i64, r: Result<usize, SysError>)
    requires
        call_ensures(handle_futex_death, (entry, offset), r),
    ensures
        r matches Ok(at) ==> at == entry + offset,
        r matches Err(e) ==> e == SysError::InvalidInput && (entry + offset < 0 || entry + offset
            > usize::MAX),
{
}

/// The walk over a robust list begins at the first entry, ends at the head, and follows 2048
/// entries at most.
pub proof fn law_robust_list_begins_at_its_head(
    head_at: usize,
    head: RobustListHead,
    walk: RobustWalk,
)
    requires
        call_ensures(exit_robust_list, (head_at, &head), walk),
    ensures
        walk.entry == head.list.next,
        walk.end == head_at,
        walk.offset == head.futex_offset,
        walk.pending == head.list_op_pending,
        walk.limit == 2048,
{
}

/// Every entry of a robust list but the pending one has its futex marked, and the walk goes on
/// to the entry that follows, one less to go; it ends with an error exactly if a futex has no
/// address or none are left to go.
pub proof fn law_robust_entries_are_marked(
    walk: &mut RobustWalk,
    next: usize,
    visit: RobustVisit,
)
    requires
        call_ensures(RobustWalk::visit, (walk, next), visit),
        old(walk).limit > 0,
    ensures
        ({
            let at = old(walk).entry + old(walk).offset;
            let pending = old(walk).entry == old(walk).pending;
            let bad = !pending && (at < 0 || at > usize::MAX);
            &&& visit.dead is Some <==> !pending && !bad
            &&& visit.dead matches Some(dead) ==> dead == at
            &&& visit.error == Some(SysError::InvalidInput) <==> bad
            &&& visit.error == Some(SysError::FilesystemLoop) <==> !bad && old(walk).limit == 1
            &&& visit.error is None <==> visit.yields
            &&& !bad ==> final(walk).entry == next && final(walk).limit == old(walk).limit - 1
            &&& bad ==> *final(walk) == *old(walk)
            &&& final(walk).end == old(walk).end
            &&& final(walk).offset == old(walk).offset
            &&& final(walk).pending == old(walk).pending
        }),
{
}

/// A robust list is read until it comes to its end.
pub proof fn law_robust_list_is_read_to_its_end(walk: RobustWalk, at: Option<usize>)
    requires
        call_ensures(RobustWalk::next_read, (&walk,), at),
    ensures
        at is None <==> walk.entry == walk.end,
        at matches Some(entry) ==> entry == walk.entry,
{
}

/// A number is that of a signal from 1 to 64.
pub proof fn law_signals_have_numbers(number: u8, signal: Option<u8>)
    requires
        call_ensures(signal_from_number, (number,), signal),
    ensures
        signal is Some <==> 1 <= number <= 64,
        signal matches Some(s) ==> s == number,
{
}

/// Whether a wait with the argument `pid` means a child: -1 means every child, a positive number
/// the child with that process ID, 0 the children of the caller's process group, and any other
/// number those of the group with its opposite.
pub open spec fn wait_means(pid: i32, own_pgid: u32, child: Child) -> bool {
    ||| pid == -1
    ||| pid > 0 && child.pid == pid
    ||| pid == 0 && child.pgid == own_pgid
    ||| pid < -1 && child.pgid == -pid
}

/// The argument of a wait means the children that it should.
pub proof fn law_wait_means_its_children(
    pid: i32,
    own_pgid: u32,
    which: WaitPid,
    child: Child,
    meant: bool,
)
    requires
        pid != i32::MIN,
        call_ensures(WaitPid::parse, (pid, own_pgid), which),
        call_ensures(WaitPid::apply, (&which, &child), meant),
    ensures
        meant <==> wait_means(pid, own_pgid, child),
{
}

proof fn lemma_meant(children: Seq<Child>, pid: i32, own_pgid: u32, n: nat, child: Child)
    requires
        pid != i32::MIN,
        n <= children.len(),
    ensures
        ({
            let chosen = meant_children(children, WaitPid::meant_by(pid, own_pgid), n);
            &&& chosen.contains(child) <==> children.take(n as int).contains(child) && wait_means(
                pid,
                own_pgid,
                child,
            )
        }),
    decreases n,
{
    if n > 0 {
        let m = (n - 1) as nat;
        lemma_meant(children, pid, own_pgid, m, child);
        let which = WaitPid::meant_by(pid, own_pgid);
        let before = meant_children(children, which, m);
        let last = children[n - 1];
        assert(children.take(n as int) =~= children.take(m as int) + seq![last]);
        lemma_in_parts(children.take(m as int), seq![last], child);
        lemma_in_one(last, child);
        assert(which.means(last) == wait_means(pid, own_pgid, last));
        if which.means(last) {
            assert(before.push(last) =~= before + seq![last]);
            lemma_in_parts(before, seq![last], child);
        }
    } else {
        lemma_in_one(child, child);
        assert(children.take(0) =~= Seq::<Child>::empty());
    }
}

proof fn lemma_meant_order(children: Seq<Child>, which: WaitPid, n: nat)
    requires
        n <= children.len(),
    ensures
        meant_children(children, which, n) == children.take(n as int).filter(
            |c: Child| which.means(c),
        ),
    decreases n,
{
    reveal(Seq::filter);
    if n > 0 {
        lemma_meant_order(children, which, (n - 1) as nat);
        assert(children.take(n as int).drop_last() =~= children.take(n - 1));
    } else {
        assert(children.take(0) =~= Seq::<Child>::empty());
    }
}

/// A wait chooses exactly the children that it means, and fails exactly if there are none.
pub proof fn law_exactly_the_meant_children_are_chosen(
    children: Vec<Child>,
    pid: i32,
    own_pgid: u32,
    selected: Result<Vec<Child>, SysError>,
    child: Child,
)
    requires
        pid != i32::MIN,
        call_ensures(select_children, (&children, pid, own_pgid), selected),
    ensures
        selected matches Ok(chosen) ==> (chosen@.contains(child) <==> children@.contains(child)
            && wait_means(pid, own_pgid, child)),
        selected matches Ok(chosen) ==> chosen@.len() > 0,
        selected matches Ok(chosen) ==> chosen@ == children@.filter(
            |c: Child| WaitPid::meant_by(pid, own_pgid).means(c),
        ),
        selected matches Err(e) ==> e == SysError::NoChild && !(children@.contains(child)
            && wait_means(pid, own_pgid, child)),
{
    lemma_meant(children@, pid, own_pgid, children@.len(), child);
    lemma_meant_order(children@, WaitPid::meant_by(pid, own_pgid), children@.len());
    assert(children@.take(children@.len() as int) =~= children@);
}

proof fn lemma_zombie(children: Seq<Child>, from: int)
    requires
        0 <= from <= children.len(),
    ensures
        first_zombie(children, from) is None ==> forall|i: int|
            from <= i < children.len() ==> !(#[trigger] children[i]).zombie,
        first_zombie(children, from) matches Some(k) ==> from <= k < children.len()
            && children[k].zombie && forall|i: int|
            from <= i < k ==> !(#[trigger] children[i]).zombie,
    decreases children.len() - from,
{
    if from < children.len() {
        lemma_zombie(children, from + 1);
    }
}

/// A look finds an exited child exactly if there is one, and then the first; the child is left
/// as it is exactly if bit 0x1000000 of the options is set. Without one the caller waits, unless
/// bit 1 is set.
pub proof fn law_look_finds_the_first_exited_child(
    children: Vec<Child>,
    options: u32,
    exit_code: usize,
    check: ChildCheck,
)
    requires
        call_ensures(check_children, (&children, options, exit_code), check),
    ensures
        check is Exited <==> exists|i: int|
            0 <= i < children@.len() && (#[trigger] children@[i]).zombie,
        check matches ChildCheck::Exited { pid, exit_code: code, free, write } ==> {
            &&& free == (options & 0x1000000 == 0)
            &&& write == exit_code
            &&& exists|i: int|
                {
                    &&& 0 <= i < children@.len()
                    &&& (#[trigger] children@[i]).zombie
                    &&& children@[i].pid == pid
                    &&& children@[i].exit_code == code
                    &&& forall|j: int| 0 <= j < i ==> !(#[trigger] children@[j]).zombie
                }
        },
        !(check is Exited) ==> (check is NoneYet <==> options & 1 != 0),
{
    lemma_zombie(children@, 0);
    assert((options & 0x1000000 == 0x1000000) == (options & 0x1000000 != 0) && (options & 1 == 1)
        == (options & 1 != 0)) by (bit_vector);
    if let Some(k) = first_zombie(children@, 0) {
        assert(children@[k].zombie);
    }
}

/// A wait fails at once exactly if no child is meant; otherwise it blocks, for the children
/// that are meant.
pub proof fn law_wait_begins_with_its_children(
    request: WaitRequest,
    waiting: &mut Waiting,
    children: Vec<Child>,
    action: WaitAction,
    child: Child,
)
    requires
        request.pid != i32::MIN,
        call_ensures(
            sys_waitpid_step,
            (&request, waiting, &WaitEvent::Begun { children }),
            action,
        ),
    ensures
        action == WaitAction::BlockOn || action == (WaitAction::Fail { error: SysError::NoChild }),
        children@.contains(child) && wait_means(request.pid, request.own_pgid, child) ==> {
            &&& action == WaitAction::BlockOn
            &&& final(waiting).phase == WaitPhase::Blocking
            &&& final(waiting).chosen@.contains(child.pid)
        },
        action == WaitAction::BlockOn ==> exists|c: Child| #[trigger]
            children@.contains(c) && wait_means(request.pid, request.own_pgid, c),
        forall|pid: u32| #[trigger] final(waiting).chosen@.contains(pid) ==> exists|c: Child|
            #[trigger] children@.contains(c) && wait_means(request.pid, request.own_pgid, c)
                && c.pid == pid,
        action is Fail ==> final(waiting).phase == WaitPhase::Over,
{
    let chosen = request.chosen(children@);
    lemma_meant(children@, request.pid, request.own_pgid, children@.len(), child);
    assert(children@.take(children@.len() as int) =~= children@);
    if chosen.contains(child) {
        let i = chosen.index_of(child);
        assert(pids(chosen)[i] == child.pid);
    }
    if chosen.len() > 0 {
        let c = chosen[0];
        lemma_meant(children@, request.pid, request.own_pgid, children@.len(), c);
        assert(chosen.contains(c));
        assert(children@.contains(c));
    }
    assert forall|pid: u32| #[trigger] final(waiting).chosen@.contains(pid) implies exists|
        c: Child,
    |
        #[trigger] children@.contains(c) && wait_means(request.pid, request.own_pgid, c) && c.pid
            == pid by {
        let i = pids(chosen).index_of(pid);
        let c = chosen[i];
        assert(chosen.contains(c));
        lemma_meant(children@, request.pid, request.own_pgid, children@.len(), c);
        assert(children@.contains(c));
    }
}

/// A wait that is interrupted fails, and looks at the children otherwise. The choice of the
/// children stays.
pub proof fn law_interrupted_wait_fails(
    request: WaitRequest,
    waiting: &mut Waiting,
    yes: bool,
    action: WaitAction,
)
    requires
        call_ensures(sys_waitpid_step, (&request, waiting, &WaitEvent::Interrupted { yes }), action),
    ensures
        yes ==> action == (WaitAction::Fail { error: SysError::Interrupted }) && final(waiting).phase == WaitPhase::Over,
        !yes ==> action == WaitAction::Look && final(waiting).phase == WaitPhase::Blocking,
        final(waiting).chosen@ == old(waiting).chosen@,
{
}

/// A wait that looks at its children reaps the first that has exited; without one it returns 0
/// if it was not to wait, and has itself woken by the next exit otherwise.
pub proof fn law_wait_reaps_the_first_exited_child(
    request: WaitRequest,
    waiting: &mut Waiting,
    children: Vec<Child>,
    action: WaitAction,
)
    requires
        call_ensures(
            sys_waitpid_step,
            (&request, waiting, &WaitEvent::Looked { children }),
            action,
        ),
    ensures
        action is Reap <==> exists|i: int|
            0 <= i < children@.len() && (#[trigger] children@[i]).zombie,
        action matches WaitAction::Reap { pid, exit_code, free, write } ==> {
            &&& final(waiting).phase == WaitPhase::Writing { pid }
            &&& free == (request.options & 0x1000000 == 0)
            &&& write == request.exit_code
            &&& exists|i: int|
                {
                    &&& 0 <= i < children@.len()
                    &&& (#[trigger] children@[i]).zombie
                    &&& children@[i].pid == pid
                    &&& children@[i].exit_code == exit_code
                    &&& forall|j: int| 0 <= j < i ==> !(#[trigger] children@[j]).zombie
                }
        },
        !(action is Reap) && request.options & 1 != 0 ==> action == (WaitAction::Complete {
            value: 0,
        }) && final(waiting).phase == WaitPhase::Over,
        !(action is Reap) && request.options & 1 == 0 ==> action == WaitAction::RegisterWaker
            && final(waiting).phase == WaitPhase::Blocking,
        final(waiting).chosen@ == old(waiting).chosen@,
{
    lemma_zombie(children@, 0);
    let options = request.options;
    assert((options & 0x1000000 == 0x1000000) == (options & 0x1000000 != 0) && (options & 1 == 1)
        == (options & 1 != 0)) by (bit_vector);
    if let Some(k) = first_zombie(children@, 0) {
        assert(children@[k].zombie);
    }
}

/// A wait returns the process ID of the child that it reaped, or the error of the write.
pub proof fn law_wait_returns_the_reaped_child(
    request: WaitRequest,
    waiting: &mut Waiting,
    error: Option<SysError>,
    action: WaitAction,
    pid: u32,
)
    requires
        call_ensures(sys_waitpid_step, (&request, waiting, &WaitEvent::Written { error }), action),
        old(waiting).phase == (WaitPhase::Writing { pid }),
    ensures
        error is None ==> action == (WaitAction::Complete { value: pid }),
        error matches Some(e) ==> action == (WaitAction::Fail { error: e }),
        final(waiting).phase == WaitPhase::Over,
{
}


/// A wait begins by a look at the children, of which none is chosen yet.
pub proof fn law_new_wait_has_chosen_nobody(waiting: Waiting)
    requires
        call_ensures(Waiting::new, (), waiting),
    ensures
        waiting.phase is Select,
        waiting.chosen@.len() == 0,
{
}


/// A wait that is interrupted is the error that says so.
pub proof fn law_interruption_is_an_error_of_its_own(interrupted: Interrupted, error: SysError)
    requires
        call_ensures(<SysError as From<Interrupted>>::from, (interrupted,), error),
    ensures
        error is Interrupted,
{
}

} // verus!
