//! The frames that hold the registers of tasks that do not run.
//!
//! A task has a frame of its own, which it keeps as long as it lives: each of its traps and
//! yields saves its registers there, and it goes on from there.

use vstd::prelude::*;

use crate::sched::registry::SchedTasks;
use crate::sched::task::VschedTaskImpl;
use crate::sched::trapframe::{
    law_trap_and_return_preserve_everything, ResumePoint, UserGeneralRegs, UserTrapFrame,
};

verus! {

/// What a call does to the frames of tasks.
#[derive(Clone, Copy, Debug, Eq, PartialEq, Structural)]
pub enum FrameCall {
    /// The task at the address has this in its frame from now on.
    Save { task: usize, frame: UserTrapFrame },
    /// The task at the address has no frame any more.
    Remove { task: usize },
    /// Nothing.
    Keep,
}

/// Whether every task but the one at `task` has in its frame what it had.
pub open spec fn keeps_frames_but(before: SchedTasks, after: SchedTasks, task: usize) -> bool {
    forall|a: usize| a != task ==> #[trigger] after.frame_of(a) == before.frame_of(a)
}

/// Whether a call can lead from one state to the other.
pub open spec fn is_frame_call(before: SchedTasks, after: SchedTasks, call: FrameCall) -> bool {
    match call {
        FrameCall::Save { task, frame } => after.frame_of(task) == Some(frame) && keeps_frames_but(
            before,
            after,
            task,
        ),
        FrameCall::Remove { task } => after.frame_of(task) is None && keeps_frames_but(
            before,
            after,
            task,
        ),
        FrameCall::Keep => after.frames@ == before.frames@ && forall|a: usize| #[trigger]
            after.frame_of(a) == before.frame_of(a),
    }
}

/// Where the registers of a task are saved: in its frame, or in the fresh one if it has none
/// yet.
pub open spec fn frame_place(task: VschedTaskImpl, fresh: usize) -> usize {
    if task.trap_frame != 0 {
        task.trap_frame
    } else {
        fresh
    }
}

/// Whether a frame can be made at an address.
pub open spec fn is_fresh(tasks: SchedTasks, at: usize) -> bool {
    at != 0 && !tasks.frames@.contains_key(at)
}

pub(crate) proof fn lemma_frame_saved(
    before: SchedTasks,
    after: SchedTasks,
    addr: usize,
    object: VschedTaskImpl,
    frame: UserTrapFrame,
)
    requires
        before.frames_wf(),
        after.objects@ == before.objects@.insert(addr, object),
        object.trap_frame != 0,
        after.frames@ == before.frames@.insert(object.trap_frame, frame),
        if before.objects@.contains_key(addr) && before.objects@[addr].trap_frame != 0 {
            object.trap_frame == before.objects@[addr].trap_frame
        } else {
            !before.frames@.contains_key(object.trap_frame)
        },
    ensures
        after.frames_wf(),
        is_frame_call(before, after, FrameCall::Save { task: addr, frame }),
{
    let at = object.trap_frame;
    assert forall|a: usize|
        #[trigger] after.objects@.contains_key(a) && after.objects@[a].trap_frame
            != 0 implies after.frames@.contains_key(after.objects@[a].trap_frame) by {
        if a != addr {
            assert(before.objects@.contains_key(a));
        }
    }
    assert forall|a: usize, b: usize|
        #[trigger] after.objects@.contains_key(a) && #[trigger] after.objects@.contains_key(b) && a
            != b && after.objects@[a].trap_frame != 0 implies after.objects@[a].trap_frame
        != after.objects@[b].trap_frame by {
        if a != addr {
            assert(before.objects@.contains_key(a));
        }
        if b != addr {
            assert(before.objects@.contains_key(b));
        }
    }
    assert forall|f: usize| #[trigger] after.frames@.contains_key(f) implies f != 0 && exists|
        a: usize,
    |
        after.has_frame(a, f) by {
        if f == at {
            assert(after.has_frame(addr, f));
        } else {
            assert(before.frames@.contains_key(f));
            let a = choose|a: usize| before.has_frame(a, f);
            assert(a != addr);
            assert(after.has_frame(a, f));
        }
    }
    assert forall|a: usize| a != addr implies #[trigger] after.frame_of(a) == before.frame_of(a) by {
        if before.objects@.contains_key(a) && before.objects@[a].trap_frame != 0 {
            assert(before.objects@[a].trap_frame != at);
        }
    }
}

pub(crate) proof fn lemma_frames_kept(
    before: SchedTasks,
    after: SchedTasks,
    addr: usize,
    object: VschedTaskImpl,
)
    requires
        before.frames_wf(),
        after.objects@ == before.objects@.insert(addr, object),
        after.frames@ == before.frames@,
        object.trap_frame == (if before.objects@.contains_key(addr) {
            before.objects@[addr].trap_frame
        } else {
            0
        }),
    ensures
        after.frames_wf(),
        is_frame_call(before, after, FrameCall::Keep),
{
    assert forall|a: usize|
        #[trigger] after.objects@.contains_key(a) && after.objects@[a].trap_frame
            != 0 implies after.frames@.contains_key(after.objects@[a].trap_frame) by {
        if a != addr || before.objects@.contains_key(addr) {
            assert(before.objects@.contains_key(a));
        }
    }
    assert forall|a: usize, b: usize|
        #[trigger] after.objects@.contains_key(a) && #[trigger] after.objects@.contains_key(b) && a
            != b && after.objects@[a].trap_frame != 0 implies after.objects@[a].trap_frame
        != after.objects@[b].trap_frame by {
        assert(before.objects@.contains_key(a));
    }
    assert forall|f: usize| #[trigger] after.frames@.contains_key(f) implies f != 0 && exists|
        a: usize,
    |
        after.has_frame(a, f) by {
        let a = choose|a: usize| before.has_frame(a, f);
        assert(after.has_frame(a, f));
    }
}

pub(crate) proof fn lemma_frame_removed(before: SchedTasks, after: SchedTasks, addr: usize)
    requires
        before.frames_wf(),
        before.objects@.contains_key(addr),
        after.objects@ == before.objects@.remove(addr),
        after.frames@ == before.frames@.remove(before.objects@[addr].trap_frame),
    ensures
        after.frames_wf(),
        is_frame_call(before, after, FrameCall::Remove { task: addr }),
{
    let at = before.objects@[addr].trap_frame;
    assert forall|a: usize|
        #[trigger] after.objects@.contains_key(a) && after.objects@[a].trap_frame
            != 0 implies after.frames@.contains_key(after.objects@[a].trap_frame) by {
        assert(before.objects@.contains_key(a));
    }
    assert forall|f: usize| #[trigger] after.frames@.contains_key(f) implies f != 0 && exists|
        a: usize,
    |
        after.has_frame(a, f) by {
        assert(before.frames@.contains_key(f));
        let a = choose|a: usize| before.has_frame(a, f);
        assert(a != addr);
        assert(after.has_frame(a, f));
    }
    assert forall|a: usize| a != addr implies #[trigger] after.frame_of(a) == before.frame_of(a) by {
        if before.objects@.contains_key(a) && before.objects@[a].trap_frame != 0 {
            assert(before.objects@[a].trap_frame != at);
        }
    }
}

/// Whether the calls lead from each state to the next.
pub open spec fn is_frame_run(states: Seq<SchedTasks>, calls: Seq<FrameCall>) -> bool {
    &&& states.len() == calls.len() + 1
    &&& forall|i: int|
        0 <= i < calls.len() ==> is_frame_call(states[i], states[i + 1], #[trigger] calls[i])
}

/// What the task at `task` saved last in the first `n` calls; `before` is what its frame held
/// before them.
pub open spec fn last_saved(
    before: Option<UserTrapFrame>,
    calls: Seq<FrameCall>,
    task: usize,
    n: nat,
) -> Option<UserTrapFrame>
    decreases n,
{
    if n == 0 {
        before
    } else {
        match calls[n - 1] {
            FrameCall::Save { task: t, frame } if t == task => Some(frame),
            FrameCall::Remove { task: t } if t == task => None,
            _ => last_saved(before, calls, task, (n - 1) as nat),
        }
    }
}

/// Over any run of calls, a task's frame holds what the task itself saved last: however many
/// other tasks trap, yield, come and go, it goes on from there.
pub proof fn law_task_goes_on_from_its_own_frame(
    states: Seq<SchedTasks>,
    calls: Seq<FrameCall>,
    task: usize,
    n: nat,
)
    requires
        is_frame_run(states, calls),
        n <= calls.len(),
    ensures
        states[n as int].frame_of(task) == last_saved(states[0].frame_of(task), calls, task, n),
    decreases n,
{
    if n > 0 {
        let m = (n - 1) as nat;
        law_task_goes_on_from_its_own_frame(states, calls, task, m);
        assert(is_frame_call(states[m as int], states[n as int], calls[m as int]));
    }
}

/// A user task that trapped goes on where it was, with every register and the status word as
/// they were, whatever the other tasks did meanwhile.
pub proof fn law_trapped_task_goes_on_where_it_was(
    states: Seq<SchedTasks>,
    calls: Seq<FrameCall>,
    task: usize,
    n: nat,
    live: UserGeneralRegs,
    sepc: usize,
    sstatus: usize,
    scause: usize,
    stval: usize,
    later: UserGeneralRegs,
)
    requires
        is_frame_run(states, calls),
        0 < n <= calls.len(),
        calls[0] == (FrameCall::Save {
            task,
            frame: UserTrapFrame::trapped(live, sepc, sstatus, scause, stval),
        }),
        forall|i: int|
            0 < i < n ==> match #[trigger] calls[i] {
                FrameCall::Save { task: t, .. } => t != task,
                FrameCall::Remove { task: t } => t != task,
                FrameCall::Keep => true,
            },
        live.zero == 0,
        later.zero == 0,
    ensures
        states[n as int].frame_of(task) matches Some(frame) && frame.left(later) == (ResumePoint {
            regs: live,
            pc: sepc,
            sstatus: Some(sstatus),
            satp: None,
        }),
    decreases n,
{
    assert(is_frame_call(states[n - 1], states[n as int], calls[n - 1]));
    if n > 1 {
        law_trapped_task_goes_on_where_it_was(
            states,
            calls,
            task,
            (n - 1) as nat,
            live,
            sepc,
            sstatus,
            scause,
            stval,
            later,
        );
    } else {
        law_trap_and_return_preserve_everything(live, sepc, sstatus, scause, stval, later);
    }
}

/// No two tasks have the same frame.
pub proof fn law_frames_are_apart(tasks: SchedTasks, a: usize, b: usize)
    requires
        tasks.kernel_wf(),
        tasks.objects@.contains_key(a),
        tasks.objects@.contains_key(b),
        tasks.objects@[a].trap_frame != 0,
        tasks.objects@[a].trap_frame == tasks.objects@[b].trap_frame,
    ensures
        a == b,
{
}

/// Every frame that is kept is that of a task: none outlives its task.
pub proof fn law_no_frame_is_left_over(tasks: SchedTasks, at: usize)
    requires
        tasks.kernel_wf(),
        tasks.frames@.contains_key(at),
    ensures
        exists|a: usize| tasks.objects@.contains_key(a) && (#[trigger] tasks.objects@[a]).trap_frame
            == at,
{
    let a = choose|a: usize| tasks.has_frame(a, at);
    assert(tasks.objects@[a].trap_frame == at);
}

} // verus!
