//! Waiting for children.

use vstd::prelude::*;

use crate::syscall::context::SysError;

verus! {

/// Do not wait if no child has anything to report.
pub const WNOHANG: u32 = 1;

pub const WUNTRACED: u32 = 2;

pub const WEXITED: u32 = 4;

pub const WCONTINUED: u32 = 8;

/// Leave the child as it is, so that it can be waited for again.
pub const WNOWAIT: u32 = 0x1000000;

pub const WNOTHREAD: u32 = 0x20000000;

pub const WALL: u32 = 0x40000000;

pub const WCLONE: u32 = 0x80000000;

/// A child process.
#[derive(Clone, Copy, Debug, Eq, PartialEq, Structural)]
pub struct Child {
    pub pid: u32,
    pub pgid: u32,
    pub zombie: bool,
    pub exit_code: i32,
}

/// Which children are waited for.
#[derive(Clone, Copy, Debug, Eq, PartialEq, Structural)]
pub enum WaitPid {
    /// Any.
    Any,
    /// The one with the process ID.
    Pid { pid: u32 },
    /// Those of the process group.
    Pgid { pgid: u32 },
}

impl WaitPid {
    /// The children that the argument of the system call means. `own_pgid` is the caller's
    /// process group.
    pub open spec fn meant_by(pid: i32, own_pgid: u32) -> WaitPid {
        if pid == -1 {
            WaitPid::Any
        } else if pid == 0 {
            WaitPid::Pgid { pgid: own_pgid }
        } else if pid > 0 {
            WaitPid::Pid { pid: pid as u32 }
        } else {
            WaitPid::Pgid { pgid: (-pid) as u32 }
        }
    }

    /// The children that the argument of the system call means.
    pub fn parse(pid: i32, own_pgid: u32) -> (r: WaitPid)
        requires
            pid != i32::MIN,
        ensures
            r == WaitPid::meant_by(pid, own_pgid),
    {
        if pid == -1 {
            WaitPid::Any
        } else if pid == 0 {
            WaitPid::Pgid { pgid: own_pgid }
        } else if pid > 0 {
            WaitPid::Pid { pid: pid as u32 }
        } else {
            WaitPid::Pgid { pgid: (-pid) as u32 }
        }
    }

    /// Whether a child is meant.
    pub open spec fn means(self, child: Child) -> bool {
        match self {
            WaitPid::Any => true,
            WaitPid::Pid { pid } => child.pid == pid,
            WaitPid::Pgid { pgid } => child.pgid == pgid,
        }
    }

    /// Whether a child is meant.
    pub fn apply(&self, child: &Child) -> (b: bool)
        ensures
            b == self.means(*child),
    {
        match self {
            WaitPid::Any => true,
            WaitPid::Pid { pid } => child.pid == *pid,
            WaitPid::Pgid { pgid } => child.pgid == *pgid,
        }
    }
}

/// The children among the first `n` that are meant, in order.
pub open spec fn meant_children(children: Seq<Child>, which: WaitPid, n: nat) -> Seq<Child>
    decreases n,
{
    if n == 0 {
        Seq::empty()
    } else if which.means(children[n - 1]) {
        meant_children(children, which, (n - 1) as nat).push(children[n - 1])
    } else {
        meant_children(children, which, (n - 1) as nat)
    }
}

/// The index of the first child that has exited and not been waited for.
pub open spec fn first_zombie(children: Seq<Child>, from: int) -> Option<int>
    decreases children.len() - from,
{
    if from < 0 || from >= children.len() {
        None
    } else if children[from].zombie {
        Some(from)
    } else {
        first_zombie(children, from + 1)
    }
}

/// What a look at the children gives.
#[derive(Clone, Copy, Debug, Eq, PartialEq, Structural)]
pub enum ChildCheck {
    /// A child has exited. It is freed where `free` says so, and its exit code is written to
    /// `write`, if that is not 0, before its process ID is returned.
    Exited { pid: u32, exit_code: i32, free: bool, write: usize },
    /// None has, and the caller does not wait.
    NoneYet,
    /// None has.
    Wait,
}

/// Whether a bit is set.
pub open spec fn has_bit(bits: u32, bit: u32) -> bool {
    bits & bit == bit
}

/// What a look at the children that are meant gives.
pub open spec fn checked_children(children: Seq<Child>, options: u32, exit_code: usize) -> ChildCheck {
    match first_zombie(children, 0) {
        Some(i) => ChildCheck::Exited {
            pid: children[i].pid,
            exit_code: children[i].exit_code,
            free: !has_bit(options, WNOWAIT),
            write: exit_code,
        },
        None => if has_bit(options, WNOHANG) {
            ChildCheck::NoneYet
        } else {
            ChildCheck::Wait
        },
    }
}

/// Looks at the children that are meant. `exit_code` is where the caller wants the exit code,
/// or 0.
pub fn check_children(children: &Vec<Child>, options: u32, exit_code: usize) -> (check: ChildCheck)
    ensures
        check == checked_children(children@, options, exit_code),
{
    let mut i: usize = 0;
    while i < children.len()
        invariant
            i <= children@.len(),
            first_zombie(children@, 0) == first_zombie(children@, i as int),
        decreases children@.len() - i,
    {
        if children[i].zombie {
            return ChildCheck::Exited {
                pid: children[i].pid,
                exit_code: children[i].exit_code,
                free: options & WNOWAIT != WNOWAIT,
                write: exit_code,
            };
        }
        i += 1;
    }
    if options & WNOHANG == WNOHANG {
        ChildCheck::NoneYet
    } else {
        ChildCheck::Wait
    }
}

/// Picks the children that are meant. It is an error if there are none.
pub fn select_children(children: &Vec<Child>, pid: i32, own_pgid: u32) -> (selected: Result<
    Vec<Child>,
    SysError,
>)
    requires
        pid != i32::MIN,
    ensures
        ({
            let meant = meant_children(
                children@,
                WaitPid::meant_by(pid, own_pgid),
                children@.len(),
            );
            &&& selected.is_err() == (meant.len() == 0)
            &&& selected matches Ok(s) ==> s@ == meant
            &&& selected matches Err(e) ==> e == SysError::NoChild
        }),
{
    let which: WaitPid = WaitPid::parse(pid, own_pgid);
    let mut selected: Vec<Child> = Vec::new();
    let mut i: usize = 0;
    while i < children.len()
        invariant
            i <= children@.len(),
            selected@ == meant_children(children@, which, i as nat),
        decreases children@.len() - i,
    {
        if which.apply(&children[i]) {
            selected.push(children[i]);
        }
        i += 1;
    }
    if selected.len() == 0 {
        return Err(SysError::NoChild);
    }
    Ok(selected)
}

/// The arguments of a wait.
#[derive(Clone, Copy, Debug, Eq, PartialEq, Structural)]
pub struct WaitRequest {
    pub pid: i32,
    /// Where the exit code is wanted, or 0.
    pub exit_code: usize,
    pub options: u32,
    /// The process group of the caller.
    pub own_pgid: u32,
}

impl WaitRequest {
    /// The children that are waited for.
    pub open spec fn chosen(self, children: Seq<Child>) -> Seq<Child> {
        meant_children(
            children,
            WaitPid::meant_by(self.pid, self.own_pgid),
            children.len(),
        )
    }
}

/// What a wait waits for.
#[derive(Clone, Copy, Debug, Eq, PartialEq, Structural)]
pub enum WaitPhase {
    /// To be told of the children of the process.
    Select,
    /// For a poll of the task that blocks in the system call: to be told whether it was
    /// interrupted, and of the children.
    Blocking,
    /// For the exit code of a child to be written.
    Writing { pid: u32 },
    /// For nothing more.
    Over,
}

/// A wait: its phase, and the process IDs of the children that are waited for.
pub struct Waiting {
    pub phase: WaitPhase,
    pub chosen: Vec<u32>,
}

/// What a wait is told.
#[derive(Debug)]
pub enum WaitEvent {
    /// The children of the process.
    Begun { children: Vec<Child> },
    /// Whether the task was interrupted.
    Interrupted { yes: bool },
    /// The children that are waited for, as they are now.
    Looked { children: Vec<Child> },
    /// The error of a write of an exit code, if it failed.
    Written { error: Option<SysError> },
}

/// What a wait does next.
#[derive(Clone, Copy, Debug, Eq, PartialEq, Structural)]
pub enum WaitAction {
    /// Block the task in the system call: each poll begins with the question whether it was
    /// interrupted.
    BlockOn,
    Look,
    /// Have the task woken when a child exits. It sleeps then, and is polled again when it is
    /// woken.
    RegisterWaker,
    /// The system call is over, with this value.
    Complete { value: u32 },
    /// The system call is over, with this error.
    Fail { error: SysError },
    /// Free the child if `free` says so, and write its exit code to `write`, if that is not 0.
    Reap { pid: u32, exit_code: i32, free: bool, write: usize },
}

/// What follows a look at the children.
pub open spec fn after_look(check: ChildCheck) -> (WaitPhase, WaitAction) {
    match check {
        ChildCheck::Exited { pid, exit_code, free, write } => (
            WaitPhase::Writing { pid },
            WaitAction::Reap { pid, exit_code, free, write },
        ),
        ChildCheck::NoneYet => (WaitPhase::Over, WaitAction::Complete { value: 0 }),
        ChildCheck::Wait => (WaitPhase::Blocking, WaitAction::RegisterWaker),
    }
}

/// The next phase of a wait, and what it does.
pub open spec fn wait_next(request: WaitRequest, phase: WaitPhase, event: WaitEvent) -> (
    WaitPhase,
    WaitAction,
) {
    match event {
        WaitEvent::Begun { children } => if request.chosen(children@).len() == 0 {
            (WaitPhase::Over, WaitAction::Fail { error: SysError::NoChild })
        } else {
            (WaitPhase::Blocking, WaitAction::BlockOn)
        },
        WaitEvent::Interrupted { yes } => if yes {
            (WaitPhase::Over, WaitAction::Fail { error: SysError::Interrupted })
        } else {
            (WaitPhase::Blocking, WaitAction::Look)
        },
        WaitEvent::Looked { children } => after_look(
            checked_children(children@, request.options, request.exit_code),
        ),
        WaitEvent::Written { error: Some(error) } => (WaitPhase::Over, WaitAction::Fail { error }),
        WaitEvent::Written { error: None } => match phase {
            WaitPhase::Writing { pid } => (WaitPhase::Over, WaitAction::Complete { value: pid }),
            _ => (phase, WaitAction::Look),
        },
    }
}

/// The process IDs of children.
pub open spec fn pids(children: Seq<Child>) -> Seq<u32> {
    children.map_values(|child: Child| child.pid)
}

/// The process IDs of the children that are waited for after an event: the choice is made
/// once.
pub open spec fn wait_chosen(
    request: WaitRequest,
    chosen: Seq<u32>,
    event: WaitEvent,
) -> Seq<u32> {
    match event {
        WaitEvent::Begun { children } => pids(request.chosen(children@)),
        _ => chosen,
    }
}

/// The events that can come in a phase. A look is at the children that were chosen.
pub open spec fn wait_expects(
    request: WaitRequest,
    phase: WaitPhase,
    chosen: Seq<u32>,
    event: WaitEvent,
) -> bool {
    match (phase, event) {
        (WaitPhase::Select, WaitEvent::Begun { .. }) => request.pid != i32::MIN,
        (WaitPhase::Blocking, WaitEvent::Interrupted { .. }) => true,
        (WaitPhase::Blocking, WaitEvent::Looked { children }) => pids(children@) == chosen,
        (WaitPhase::Writing { .. }, WaitEvent::Written { .. }) => true,
        _ => false,
    }
}

fn list_pids(children: &Vec<Child>) -> (list: Vec<u32>)
    ensures
        list@ == pids(children@),
{
    let mut list: Vec<u32> = Vec::new();
    let mut i: usize = 0;
    while i < children.len()
        invariant
            i <= children@.len(),
            list@ == pids(children@).take(i as int),
        decreases children@.len() - i,
    {
        list.push(children[i].pid);
        i += 1;
        assert(list@ =~= pids(children@).take(i as int));
    }
    assert(list@ =~= pids(children@));
    list
}

fn follow_look(check: ChildCheck) -> (next: (WaitPhase, WaitAction))
    ensures
        next == after_look(check),
{
    match check {
        ChildCheck::Exited { pid, exit_code, free, write } => (
            WaitPhase::Writing { pid },
            WaitAction::Reap { pid, exit_code, free, write },
        ),
        ChildCheck::NoneYet => (WaitPhase::Over, WaitAction::Complete { value: 0 }),
        ChildCheck::Wait => (WaitPhase::Blocking, WaitAction::RegisterWaker),
    }
}

impl Waiting {
    /// A wait that has not begun.
    pub fn new() -> (waiting: Self)
        ensures
            waiting.phase == WaitPhase::Select,
            waiting.chosen@ == Seq::<u32>::empty(),
    {
        Waiting { phase: WaitPhase::Select, chosen: Vec::new() }
    }
}

/// Waits for children: takes the answer to what was asked for last, and says what to do next.
/// It starts with the choice of the children that are meant. The task blocks in the system call
/// until it is over, under every scheduler.
pub fn sys_waitpid_step(request: &WaitRequest, waiting: &mut Waiting, event: &WaitEvent) -> (action:
    WaitAction)
    requires
        wait_expects(*request, old(waiting).phase, old(waiting).chosen@, *event),
    ensures
        (final(waiting).phase, action) == wait_next(*request, old(waiting).phase, *event),
        final(waiting).chosen@ == wait_chosen(*request, old(waiting).chosen@, *event),
{
    let next: (WaitPhase, WaitAction) = match event {
        WaitEvent::Begun { children } => match select_children(
            children,
            request.pid,
            request.own_pgid,
        ) {
            Err(error) => {
                waiting.chosen = Vec::new();
                assert(waiting.chosen@ =~= pids(request.chosen(children@)));
                (WaitPhase::Over, WaitAction::Fail { error })
            },
            Ok(chosen) => {
                waiting.chosen = list_pids(&chosen);
                (WaitPhase::Blocking, WaitAction::BlockOn)
            },
        },
        WaitEvent::Interrupted { yes } => {
            if *yes {
                (WaitPhase::Over, WaitAction::Fail { error: SysError::Interrupted })
            } else {
                (WaitPhase::Blocking, WaitAction::Look)
            }
        },
        WaitEvent::Looked { children } => follow_look(
            check_children(children, request.options, request.exit_code),
        ),
        WaitEvent::Written { error } => match error {
            Some(error) => (WaitPhase::Over, WaitAction::Fail { error: *error }),
            None => match waiting.phase {
                WaitPhase::Writing { pid } => (
                    WaitPhase::Over,
                    WaitAction::Complete { value: pid },
                ),
                phase => (phase, WaitAction::Look),
            },
        },
    };
    waiting.phase = next.0;
    next.1
}

/// A wait sleeps only if it was asked to wait, and the children that were chosen were looked at
/// and none had exited.
pub proof fn law_wait_sleeps_only_without_an_exited_child(
    request: WaitRequest,
    phase: WaitPhase,
    chosen: Seq<u32>,
    event: WaitEvent,
)
    requires
        wait_expects(request, phase, chosen, event),
        wait_next(request, phase, event).1 == WaitAction::RegisterWaker,
    ensures
        !has_bit(request.options, WNOHANG),
        event matches WaitEvent::Looked { children } && pids(children@) == chosen && forall|i: int|
            0 <= i < children@.len() ==> !(#[trigger] children@[i]).zombie,
{
    let children = event->Looked_children@;
    lemma_no_zombie(children, 0);
}

/// A wait that finds an exited child ends with the first of them.
pub proof fn law_wait_ends_with_an_exited_child(request: WaitRequest, children: Vec<Child>, i: int)
    requires
        0 <= i < children@.len(),
        children@[i].zombie,
        forall|j: int| 0 <= j < i ==> !(#[trigger] children@[j]).zombie,
    ensures
        wait_next(request, WaitPhase::Blocking, WaitEvent::Looked { children }) == (
            WaitPhase::Writing { pid: children@[i].pid },
            WaitAction::Reap {
                pid: children@[i].pid,
                exit_code: children@[i].exit_code,
                free: !has_bit(request.options, WNOWAIT),
                write: request.exit_code,
            },
        ),
{
    law_first_exited_child_is_reported(children@, request.options, request.exit_code, i);
}

/// A wait that returns the process ID of a child was told that this child, one of those that
/// were chosen, had exited.
pub proof fn law_reaped_child_was_chosen(
    request: WaitRequest,
    phase: WaitPhase,
    chosen: Seq<u32>,
    event: WaitEvent,
    pid: u32,
)
    requires
        wait_expects(request, phase, chosen, event),
        wait_next(request, phase, event).0 == (WaitPhase::Writing { pid }),
    ensures
        chosen.contains(pid),
        event matches WaitEvent::Looked { children } && exists|i: int|
            0 <= i < children@.len() && (#[trigger] children@[i]).zombie && children@[i].pid
                == pid,
{
    let children = event->Looked_children@;
    lemma_zombie_is_there(children, 0);
    let i = first_zombie(children, 0)->Some_0;
    assert(children[i].pid == pid);
    assert(pids(children)[i] == pid);
}

proof fn lemma_no_zombie(children: Seq<Child>, from: int)
    requires
        0 <= from,
        first_zombie(children, from) is None,
    ensures
        forall|i: int| from <= i < children.len() ==> !(#[trigger] children[i]).zombie,
    decreases children.len() - from,
{
    if from < children.len() {
        lemma_no_zombie(children, from + 1);
    }
}

proof fn lemma_zombie_is_there(children: Seq<Child>, from: int)
    requires
        0 <= from,
        first_zombie(children, from) is Some,
    ensures
        ({
            let i = first_zombie(children, from)->Some_0;
            from <= i < children.len() && children[i].zombie
        }),
    decreases children.len() - from,
{
    if !children[from].zombie {
        lemma_zombie_is_there(children, from + 1);
    }
}

/// A wait reports the first of the children that are meant and have exited, and waits only
/// if there is none.
pub proof fn law_first_exited_child_is_reported(
    children: Seq<Child>,
    options: u32,
    exit_code: usize,
    i: int,
)
    requires
        0 <= i < children.len(),
        children[i].zombie,
        forall|j: int| 0 <= j < i ==> !(#[trigger] children[j]).zombie,
    ensures
        checked_children(children, options, exit_code) == (ChildCheck::Exited {
            pid: children[i].pid,
            exit_code: children[i].exit_code,
            free: !has_bit(options, WNOWAIT),
            write: exit_code,
        }),
{
    lemma_first_zombie(children, 0, i);
}

proof fn lemma_first_zombie(children: Seq<Child>, from: int, i: int)
    requires
        0 <= from <= i < children.len(),
        children[i].zombie,
        forall|j: int| from <= j < i ==> !(#[trigger] children[j]).zombie,
    ensures
        first_zombie(children, from) == Some(i),
    decreases i - from,
{
    if from < i {
        assert(!children[from].zombie);
        lemma_first_zombie(children, from + 1, i);
    }
}

} // verus!
