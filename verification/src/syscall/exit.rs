//! The end of threads and processes.

use vstd::prelude::*;

use crate::syscall::context::{SysError, SIGKILL};

verus! {

/// How many entries of a robust list are followed.
pub const ROBUST_LIST_LIMIT: u32 = 2048;

/// A request to exit.
#[derive(Clone, Copy, Debug, Eq, PartialEq, Structural)]
pub struct ExitRequest {
    /// What the parent reads of it.
    pub status: i32,
    /// Whether all threads of the process exit.
    pub group_exit: bool,
}

/// What a parent reads of a process that exited with a code.
pub open spec fn exit_status(code: i32) -> i32 {
    ((code as u32) << 8u32) as i32
}

/// Ends the calling thread.
pub fn sys_exit(exit_code: i32) -> (request: ExitRequest)
    ensures
        request == (ExitRequest { status: exit_status(exit_code), group_exit: false }),
{
    ExitRequest { status: ((exit_code as u32) << 8u32) as i32, group_exit: false }
}

/// Ends the calling process.
pub fn sys_exit_group(exit_code: i32) -> (request: ExitRequest)
    ensures
        request == (ExitRequest { status: exit_status(exit_code), group_exit: true }),
{
    ExitRequest { status: ((exit_code as u32) << 8u32) as i32, group_exit: true }
}

/// The task of the external scheduler that exits with the thread: that whose trap is handled,
/// if the scheduler runs.
pub fn mark_exited(vsched2_active: bool, trapped: usize) -> (task: Option<usize>)
    ensures
        task == (if vsched2_active && trapped != 0 {
            Some(trapped)
        } else {
            None
        }),
{
    if !vsched2_active {
        return None;
    }
    if trapped != 0 {
        Some(trapped)
    } else {
        None
    }
}

/// What is done for a thread that exits.
#[derive(Clone, Copy, Debug, Eq, PartialEq, Structural)]
pub enum ExitAction {
    /// Write 0 to the thread's memory.
    WriteZero { at: usize },
    /// Wake one waiter of the futex there, if there is a futex.
    WakeFutex { at: usize },
    Yield,
    /// Follow the thread's list of robust futexes. A failure is ignored.
    ExitRobustList { head: usize },
    /// Take the thread out of its process.
    ExitThread { status: i32 },
    /// End the process.
    ExitProcess,
    /// Send a signal to a process. A failure is ignored.
    SignalProcess { pid: u32, signo: u8 },
    /// Wake those of a process that wait for a child.
    WakeChildExit { pid: u32 },
    /// Wake those that wait for the process.
    WakeExit,
    /// Let go of the shared memory of the process.
    ClearSharedMemory,
    /// Ask whether all threads of the process exit already.
    AskGroupExited,
    /// All threads of the process exit.
    GroupExit,
    /// Send a signal to every thread of the process. A failure is ignored.
    SignalThreads { signo: u8 },
    /// The thread has exited.
    SetExit,
}

/// How far the exit of a thread has come.
#[derive(Clone, Copy, Debug, Eq, PartialEq, Structural)]
pub enum ExitPhase {
    Begun,
    /// The thread's memory is being written.
    Clearing,
    /// The thread is being taken out of its process.
    Leaving,
    /// It is being asked whether all threads of the process exit already.
    Grouping,
    Exited,
}

/// What was found when an action was carried out.
#[derive(Clone, Copy, Debug, Eq, PartialEq, Structural)]
pub enum ExitEvent {
    Start,
    /// The write to the thread's memory succeeded or failed.
    Written { ok: bool },
    /// The thread is out of its process. `last` says that it was the last one, `parent` is
    /// the parent of the process, if it has one, and `exit_signal` the signal of its exit.
    Left { last: bool, parent: Option<u32>, exit_signal: Option<u8> },
    /// Whether all threads of the process exit already.
    Group { exited: bool },
}

/// The thread that exits.
#[derive(Clone, Copy, Debug, Eq, PartialEq, Structural)]
pub struct ExitingThread {
    /// Where its ID is cleared.
    pub clear_child_tid: usize,
    /// Its list of robust futexes, or 0.
    pub robust_list_head: usize,
}

/// What is done once the thread's memory is written.
pub open spec fn cleared_actions(
    thread: ExitingThread,
    request: ExitRequest,
    ok: bool,
) -> Seq<ExitAction> {
    let woken = if ok {
        seq![ExitAction::WakeFutex { at: thread.clear_child_tid }, ExitAction::Yield]
    } else {
        Seq::empty()
    };
    let robust = if thread.robust_list_head != 0 {
        seq![ExitAction::ExitRobustList { head: thread.robust_list_head }]
    } else {
        Seq::empty()
    };
    woken + robust + seq![ExitAction::ExitThread { status: request.status }]
}

/// What is done for the process of a thread that was its last.
pub open spec fn process_exit_actions(parent: Option<u32>, exit_signal: Option<u8>) -> Seq<
    ExitAction,
> {
    let told = match (parent, exit_signal) {
        (Some(pid), Some(signo)) => seq![
            ExitAction::SignalProcess { pid, signo },
            ExitAction::WakeChildExit { pid },
        ],
        (Some(pid), None) => seq![ExitAction::WakeChildExit { pid }],
        (None, _) => Seq::empty(),
    };
    seq![ExitAction::ExitProcess] + told + seq![
        ExitAction::WakeExit,
        ExitAction::ClearSharedMemory,
    ]
}

/// What is done once the thread is out of its process.
pub open spec fn left_actions(
    request: ExitRequest,
    last: bool,
    parent: Option<u32>,
    exit_signal: Option<u8>,
) -> Seq<ExitAction> {
    let process = if last {
        process_exit_actions(parent, exit_signal)
    } else {
        Seq::empty()
    };
    process.push(
        if request.group_exit {
            ExitAction::AskGroupExited
        } else {
            ExitAction::SetExit
        },
    )
}

/// What is done once it is known whether all threads of the process exit already.
pub open spec fn group_actions(exited: bool) -> Seq<ExitAction> {
    if exited {
        seq![ExitAction::SetExit]
    } else {
        seq![
            ExitAction::GroupExit,
            ExitAction::SignalThreads { signo: SIGKILL },
            ExitAction::SetExit,
        ]
    }
}

/// Whether an event can come in a phase.
pub open spec fn exit_event_fits(phase: ExitPhase, event: ExitEvent) -> bool {
    match phase {
        ExitPhase::Begun => event is Start,
        ExitPhase::Clearing => event is Written,
        ExitPhase::Leaving => event is Left,
        ExitPhase::Grouping => event is Group,
        ExitPhase::Exited => false,
    }
}

/// The next phase of a thread's exit.
pub open spec fn exit_phase_after(request: ExitRequest, event: ExitEvent) -> ExitPhase {
    match event {
        ExitEvent::Start => ExitPhase::Clearing,
        ExitEvent::Written { .. } => ExitPhase::Leaving,
        ExitEvent::Left { .. } => if request.group_exit {
            ExitPhase::Grouping
        } else {
            ExitPhase::Exited
        },
        ExitEvent::Group { .. } => ExitPhase::Exited,
    }
}

/// What is done in a thread's exit when an event comes. The last of the actions gives the
/// next event, unless the thread has exited.
pub open spec fn exit_actions(
    thread: ExitingThread,
    request: ExitRequest,
    event: ExitEvent,
) -> Seq<ExitAction> {
    match event {
        ExitEvent::Start => seq![ExitAction::WriteZero { at: thread.clear_child_tid }],
        ExitEvent::Written { ok } => cleared_actions(thread, request, ok),
        ExitEvent::Left { last, parent, exit_signal } => left_actions(
            request,
            last,
            parent,
            exit_signal,
        ),
        ExitEvent::Group { exited } => group_actions(exited),
    }
}

fn push_process_exit(actions: &mut Vec<ExitAction>, parent: Option<u32>, exit_signal: Option<u8>)
    requires
        old(actions)@.len() == 0,
    ensures
        final(actions)@ == process_exit_actions(parent, exit_signal),
{
    actions.push(ExitAction::ExitProcess);
    if let Some(pid) = parent {
        if let Some(signo) = exit_signal {
            actions.push(ExitAction::SignalProcess { pid, signo });
        }
        actions.push(ExitAction::WakeChildExit { pid });
    }
    actions.push(ExitAction::WakeExit);
    actions.push(ExitAction::ClearSharedMemory);
    assert(actions@ =~= process_exit_actions(parent, exit_signal));
}

/// One step of a thread's exit: takes what was found, and says what is done next.
pub fn do_exit(
    thread: &ExitingThread,
    request: &ExitRequest,
    phase: &mut ExitPhase,
    event: ExitEvent,
) -> (actions: Vec<ExitAction>)
    requires
        exit_event_fits(*old(phase), event),
    ensures
        *final(phase) == exit_phase_after(*request, event),
        actions@ == exit_actions(*thread, *request, event),
{
    let mut actions: Vec<ExitAction> = Vec::new();
    match event {
        ExitEvent::Start => {
            actions.push(ExitAction::WriteZero { at: thread.clear_child_tid });
            *phase = ExitPhase::Clearing;
        },
        ExitEvent::Written { ok } => {
            if ok {
                actions.push(ExitAction::WakeFutex { at: thread.clear_child_tid });
                actions.push(ExitAction::Yield);
            }
            if thread.robust_list_head != 0 {
                actions.push(ExitAction::ExitRobustList { head: thread.robust_list_head });
            }
            actions.push(ExitAction::ExitThread { status: request.status });
            *phase = ExitPhase::Leaving;
        },
        ExitEvent::Left { last, parent, exit_signal } => {
            if last {
                push_process_exit(&mut actions, parent, exit_signal);
            }
            if request.group_exit {
                actions.push(ExitAction::AskGroupExited);
                *phase = ExitPhase::Grouping;
            } else {
                actions.push(ExitAction::SetExit);
                *phase = ExitPhase::Exited;
            }
        },
        ExitEvent::Group { exited } => {
            if !exited {
                actions.push(ExitAction::GroupExit);
                actions.push(ExitAction::SignalThreads { signo: SIGKILL });
            }
            actions.push(ExitAction::SetExit);
            *phase = ExitPhase::Exited;
        },
    }
    assert(actions@ =~= exit_actions(*thread, *request, event));
    actions
}

/// What becomes of a fatal signal.
#[derive(Clone, Copy, Debug, Eq, PartialEq, Structural)]
pub enum FatalSignal {
    /// A thread takes it.
    Interrupt { tid: u32 },
    /// None does: the current process exits with it.
    Exit { request: ExitRequest },
}

/// Says what becomes of a fatal signal. `receiver` is the thread that the signal was given
/// to, if any; `found` says that its task is there.
pub fn raise_signal_fatal_for_task(receiver: Option<u32>, found: bool, signo: u8) -> (r:
    FatalSignal)
    ensures
        r == (if receiver.is_some() && found {
            FatalSignal::Interrupt { tid: receiver.unwrap() }
        } else {
            FatalSignal::Exit { request: ExitRequest { status: signo as i32, group_exit: true } }
        }),
{
    if let Some(tid) = receiver {
        if found {
            return FatalSignal::Interrupt { tid };
        }
    }
    FatalSignal::Exit { request: ExitRequest { status: signo as i32, group_exit: true } }
}

/// An entry of a robust list.
#[derive(Clone, Copy, Debug, Eq, PartialEq, Structural)]
pub struct RobustList {
    pub next: usize,
}

/// The head of a robust list. The list ends at its own address.
#[derive(Clone, Copy, Debug, Eq, PartialEq, Structural)]
pub struct RobustListHead {
    pub list: RobustList,
    /// From an entry to its futex.
    pub futex_offset: i64,
    /// An entry that is being added or taken out.
    pub list_op_pending: usize,
}

/// The futex whose owner has died with a thread: that of a list entry.
pub fn handle_futex_death(entry: usize, offset: i64) -> (r: Result<usize, SysError>)
    ensures
        r == (if 0 <= entry + offset <= usize::MAX {
            Ok::<usize, SysError>((entry + offset) as usize)
        } else {
            Err(SysError::InvalidInput)
        }),
{
    let address: i128 = entry as i128 + offset as i128;
    if address < 0 || address > usize::MAX as i128 {
        return Err(SysError::InvalidInput);
    }
    Ok(address as usize)
}

/// How far a robust list has been followed.
#[derive(Clone, Copy, Debug, Eq, PartialEq, Structural)]
pub struct RobustWalk {
    /// The entry to be looked at.
    pub entry: usize,
    /// The address at which the list ends.
    pub end: usize,
    pub offset: i64,
    pub pending: usize,
    /// How many entries are still followed.
    pub limit: u32,
}

/// What the visit of an entry gives.
#[derive(Clone, Copy, Debug, Eq, PartialEq, Structural)]
pub struct RobustVisit {
    /// The futex whose owner has died, if the entry has one.
    pub dead: Option<usize>,
    /// Why the list is not followed any further.
    pub error: Option<SysError>,
    /// Whether other tasks run before the next entry is visited.
    pub yields: bool,
}

/// Begins to follow the robust list whose head is `head`, read from `head_at`.
pub fn exit_robust_list(head_at: usize, head: &RobustListHead) -> (walk: RobustWalk)
    ensures
        walk == (RobustWalk {
            entry: head.list.next,
            end: head_at,
            offset: head.futex_offset,
            pending: head.list_op_pending,
            limit: ROBUST_LIST_LIMIT,
        }),
{
    RobustWalk {
        entry: head.list.next,
        end: head_at,
        offset: head.futex_offset,
        pending: head.list_op_pending,
        limit: ROBUST_LIST_LIMIT,
    }
}

impl RobustWalk {
    /// Whether the list has come to its end.
    pub open spec fn ended(self) -> bool {
        self.entry == self.end
    }

    /// What the visit of the entry gives.
    pub open spec fn visited(self) -> RobustVisit {
        let bad = self.entry != self.pending && !(0 <= self.entry + self.offset <= usize::MAX);
        RobustVisit {
            dead: if self.entry == self.pending || bad {
                None
            } else {
                Some((self.entry + self.offset) as usize)
            },
            error: if bad {
                Some(SysError::InvalidInput)
            } else if self.limit == 1 {
                Some(SysError::FilesystemLoop)
            } else {
                None
            },
            yields: !bad && self.limit != 1,
        }
    }

    /// The walk after the visit of an entry that is followed by `next`.
    pub open spec fn advanced(self, next: usize) -> RobustWalk {
        RobustWalk { entry: next, limit: (self.limit - 1) as u32, ..self }
    }

    /// The entry that is to be read, unless the list has come to its end.
    pub fn next_read(&self) -> (at: Option<usize>)
        ensures
            at == (if self.ended() {
                None
            } else {
                Some(self.entry)
            }),
    {
        if self.entry == self.end {
            None
        } else {
            Some(self.entry)
        }
    }

    /// Visits the entry, which was read and is followed by `next`: its futex is dead, unless
    /// the entry is the one that is being added or taken out. The list is followed no further
    /// if the futex has no address, or if enough entries have been visited; otherwise other
    /// tasks run in between.
    pub fn visit(&mut self, next: usize) -> (visit: RobustVisit)
        requires
            !old(self).ended(),
            old(self).limit > 0,
        ensures
            visit == old(self).visited(),
            visit.error != Some(SysError::InvalidInput) ==> *final(self) == old(self).advanced(
                next,
            ),
            visit.error == Some(SysError::InvalidInput) ==> *final(self) == *old(self),
    {
        let mut dead: Option<usize> = None;
        if self.entry != self.pending {
            match handle_futex_death(self.entry, self.offset) {
                Ok(address) => {
                    dead = Some(address);
                },
                Err(error) => {
                    return RobustVisit { dead: None, error: Some(error), yields: false };
                },
            }
        }
        self.entry = next;
        self.limit = self.limit - 1;
        if self.limit == 0 {
            return RobustVisit { dead, error: Some(SysError::FilesystemLoop), yields: false };
        }
        RobustVisit { dead, error: None, yields: true }
    }
}

/// The walk after entries were visited, each of which is followed by one of `nexts`.
pub open spec fn walked(walk: RobustWalk, nexts: Seq<usize>) -> RobustWalk
    decreases nexts.len(),
{
    if nexts.len() == 0 {
        walk
    } else {
        walked(walk, nexts.drop_last()).advanced(nexts.last())
    }
}

/// Whether all visits of a walk succeed.
pub open spec fn walk_succeeds(walk: RobustWalk, nexts: Seq<usize>) -> bool {
    forall|n: int|
        0 <= n < nexts.len() ==> (#[trigger] walked(walk, nexts.take(n))).visited().error is None
}

/// The parent reads the lowest byte of the code with which a process exited, and that no
/// signal ended it.
pub proof fn law_status_holds_the_code(code: i32)
    ensures
        (exit_status(code) as u32 >> 8u32) & 0xff == (code as u32) & 0xff,
        (exit_status(code) as u32) & 0x7f == 0,
{
    let bits = code as u32;
    assert((((bits << 8u32) as i32) as u32 >> 8u32) & 0xff == bits & 0xff && (((bits << 8u32) as i32)
        as u32) & 0x7f == 0) by (bit_vector);
}

/// A thread has exited when all else is done: each step but the last ends by asking for what
/// the next one needs, and the last ends the thread.
pub proof fn law_thread_exits_last(
    thread: ExitingThread,
    request: ExitRequest,
    event: ExitEvent,
    i: int,
)
    requires
        0 <= i < exit_actions(thread, request, event).len(),
    ensures
        exit_actions(thread, request, event)[i] is SetExit <==> {
            &&& i == exit_actions(thread, request, event).len() - 1
            &&& exit_phase_after(request, event) is Exited
        },
{
}

/// The parent of a process is told of its end, after the end.
pub proof fn law_parent_is_told(
    thread: ExitingThread,
    request: ExitRequest,
    pid: u32,
    exit_signal: Option<u8>,
)
    ensures
        ({
            let actions = exit_actions(
                thread,
                request,
                ExitEvent::Left { last: true, parent: Some(pid), exit_signal },
            );
            &&& actions[0] is ExitProcess
            &&& exit_signal is None ==> actions[1] == (ExitAction::WakeChildExit { pid })
            &&& exit_signal matches Some(signo) ==> {
                &&& actions[1] == (ExitAction::SignalProcess { pid, signo })
                &&& actions[2] == (ExitAction::WakeChildExit { pid })
            }
        }),
{
}

proof fn lemma_walk_uses_its_limit(walk: RobustWalk, nexts: Seq<usize>)
    requires
        walk_succeeds(walk, nexts),
        walk.limit > 0,
    ensures
        walked(walk, nexts).limit == walk.limit - nexts.len(),
        nexts.len() < walk.limit,
    decreases nexts.len(),
{
    if nexts.len() > 0 {
        let before = nexts.drop_last();
        assert forall|n: int| 0 <= n < before.len() implies (#[trigger] walked(
            walk,
            before.take(n),
        )).visited().error is None by {
            assert(before.take(n) =~= nexts.take(n));
        }
        lemma_walk_uses_its_limit(walk, before);
        assert(nexts.take(nexts.len() - 1) =~= before);
        assert(walked(walk, before).visited().error is None);
    }
}

/// A robust list is not followed for ever: even of a list that runs in a circle, fewer entries
/// than the limit are visited without an error.
pub proof fn law_robust_walk_ends(head_at: usize, head: RobustListHead, nexts: Seq<usize>)
    requires
        walk_succeeds(
            RobustWalk {
                entry: head.list.next,
                end: head_at,
                offset: head.futex_offset,
                pending: head.list_op_pending,
                limit: ROBUST_LIST_LIMIT,
            },
            nexts,
        ),
    ensures
        nexts.len() < ROBUST_LIST_LIMIT,
{
    lemma_walk_uses_its_limit(
        RobustWalk {
            entry: head.list.next,
            end: head_at,
            offset: head.futex_offset,
            pending: head.list_op_pending,
            limit: ROBUST_LIST_LIMIT,
        },
        nexts,
    );
}

} // verus!
