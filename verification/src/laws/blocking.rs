//! Blocking a task on a future, and waking it.

use vstd::prelude::*;

use crate::axtask::api::SchedulerHooks;
use crate::axtask::waker::{
    block_on, block_on_legacy_pending, interruptible, wait_owner, AxWaker, BlockOnAction,
    BlockOnEvent, BlockOnPhase, Interrupted, LegacyPending, WakeAction, WAIT_IDLE, WAIT_NOTIFIED,
    WAIT_PARKED, WAIT_PARKING,
};
use crate::sched::kernel::{
    current_block_on_task, transition_block_on_task, wake_blocked_task, WakeOutcome,
};
use crate::sched::registry::SchedTasks;
use crate::state::AxTaskState;

verus! {

/// The scheduling state of the task at `addr`: that in its slot, if it has one, and its own
/// otherwise.
pub open spec fn state_at(tasks: SchedTasks, addr: usize) -> AxTaskState {
    match tasks.objects@[addr].shared_task_key {
        Some(key) => {
            let raw = tasks.table.slots@[key.slot as int].task_state;
            if raw == 0 {
                AxTaskState::Ready
            } else if raw == 1 {
                AxTaskState::Running
            } else if raw == 2 {
                AxTaskState::Blocked
            } else if raw == 3 {
                AxTaskState::Exited
            } else {
                AxTaskState::Blocking
            }
        },
        None => tasks.objects@[addr].task.state,
    }
}

/// Whether the task at `addr` has a live slot, if it has one at all.
pub open spec fn has_live_slot(tasks: SchedTasks, addr: usize) -> bool {
    tasks.objects@[addr].shared_task_key matches Some(key) ==> tasks.table.live(key)
}

/// A wake in the current generation that finds its task waiting, or on the way to it, or ready,
/// leaves it ready, whether or not its context has been saved; and only the one that finds it
/// waiting puts it into a queue. Any other wake changes nothing.
pub proof fn law_woken_task_is_ready(
    tasks: &mut SchedTasks,
    task: usize,
    generation: usize,
    outcome: WakeOutcome,
)
    requires
        call_ensures(wake_blocked_task, (tasks, task, generation), outcome),
        old(tasks).resolve(task) matches Some(addr) && old(tasks).objects@.contains_key(addr)
            && has_live_slot(*old(tasks), addr),
    ensures
        ({
            let addr = old(tasks).resolve(task).unwrap();
            let before = state_at(*old(tasks), addr);
            let after = state_at(*final(tasks), addr);
            let current = old(tasks).objects@[addr].wake_generation == generation;
            &&& outcome.woken <==> current && before != AxTaskState::Running && before
                != AxTaskState::Exited
            &&& outcome.woken ==> after == AxTaskState::Ready && final(tasks).objects@[addr].task.state == AxTaskState::Ready
            &&& outcome.push <==> current && before == AxTaskState::Blocked
            &&& !outcome.woken ==> after == before
            &&& final(tasks).objects@[addr].wake_generation == old(tasks).objects@[addr].wake_generation
            &&& forall|other: usize|
                other != addr ==> (#[trigger] final(tasks).objects@.contains_key(other) <==> old(tasks).objects@.contains_key(other)) && final(tasks).objects@[other] == old(tasks).objects@[other]
        }),
{
}

/// A wake of no task does nothing.
pub proof fn law_wake_of_nobody_does_nothing(
    tasks: &mut SchedTasks,
    task: usize,
    generation: usize,
    outcome: WakeOutcome,
)
    requires
        call_ensures(wake_blocked_task, (tasks, task, generation), outcome),
        old(tasks).resolve(task) is None,
    ensures
        !outcome.woken && !outcome.push,
        final(tasks).objects@ == old(tasks).objects@,
        final(tasks).table == old(tasks).table,
{
}

/// A task that is woken twice is put into a queue at most once.
pub proof fn law_two_wakes_enqueue_once(
    tasks: &mut SchedTasks,
    later: &mut SchedTasks,
    task: usize,
    generation: usize,
    first: WakeOutcome,
    second: WakeOutcome,
)
    requires
        call_ensures(wake_blocked_task, (tasks, task, generation), first),
        call_ensures(wake_blocked_task, (later, task, generation), second),
        *old(later) == *final(tasks),
        old(tasks).resolve(task) matches Some(addr) && old(tasks).objects@.contains_key(addr)
            && has_live_slot(*old(tasks), addr),
        old(later).resolve(task) == old(tasks).resolve(task),
    ensures
        !(first.push && second.push),
        first.woken == second.woken,
{
}

/// Blocking begins with a task that runs, and is taken back from a task that is blocking. A
/// task that has exited stays so, and its call is told.
pub proof fn law_blocking_begins_and_is_taken_back(
    tasks: &mut SchedTasks,
    current: usize,
    blocking: bool,
    done: bool,
)
    requires
        call_ensures(transition_block_on_task, (tasks, current, blocking), done),
        old(tasks).resolve(current) matches Some(addr) && old(tasks).objects@.contains_key(addr)
            && has_live_slot(*old(tasks), addr),
    ensures
        ({
            let addr = old(tasks).resolve(current).unwrap();
            let before = state_at(*old(tasks), addr);
            let after = state_at(*final(tasks), addr);
            &&& done <==> before != AxTaskState::Exited
            &&& blocking && before == AxTaskState::Running ==> after == AxTaskState::Blocking
            &&& !blocking && before == AxTaskState::Blocking ==> after == AxTaskState::Running
            &&& before == AxTaskState::Exited ==> after == AxTaskState::Exited
            &&& final(tasks).objects@[addr].wake_generation == old(tasks).objects@[addr].wake_generation
        }),
{
}

/// A wake that comes when a task has begun to block, and before its context is saved, is not
/// lost: the task is ready, and whoever saves its context finds it so.
pub proof fn law_wake_of_a_blocking_task_is_not_lost(
    tasks: &mut SchedTasks,
    later: &mut SchedTasks,
    task: usize,
    done: bool,
    outcome: WakeOutcome,
)
    requires
        call_ensures(transition_block_on_task, (tasks, task, true), done),
        *old(later) == *final(tasks),
        old(tasks).resolve(task) matches Some(addr) && old(tasks).objects@.contains_key(addr)
            && has_live_slot(*old(tasks), addr) && has_live_slot(*old(later), addr)
            && state_at(*old(tasks), addr) == AxTaskState::Running,
        old(later).resolve(task) == old(tasks).resolve(task),
        call_ensures(
            wake_blocked_task,
            (later, task, old(tasks).objects@[old(tasks).resolve(task).unwrap()].wake_generation),
            outcome,
        ),
    ensures
        done,
        outcome.woken && !outcome.push,
        state_at(*final(later), old(tasks).resolve(task).unwrap()) == AxTaskState::Ready,
{
    let addr = old(tasks).resolve(task).unwrap();
    assert(old(later).objects@.contains_key(addr));
}

/// A task that blocks is named with the generation in which a wake finds it.
pub proof fn law_waker_knows_its_generation(tasks: SchedTasks, current: usize, task: (usize, usize))
    requires
        call_ensures(current_block_on_task, (&tasks, current), task),
    ensures
        tasks.resolve(current) matches Some(addr) ==> task.0 == current && task.1
            == tasks.objects@[addr].wake_generation,
        tasks.resolve(current) is None ==> task == (0usize, 0usize),
{
}

/// A wake is noted whatever the task does meanwhile, and asks for the task to be made ready
/// exactly if the task has published that it waits.
pub proof fn law_wake_is_noted(waker: &mut AxWaker, alive: bool, action: WakeAction)
    requires
        call_ensures(AxWaker::wake_by_ref, (waker, alive), action),
    ensures
        final(waker).woke,
        final(waker).task == old(waker).task,
        final(waker).vsched_task == old(waker).vsched_task,
        final(waker).vsched_generation == old(waker).vsched_generation,
        old(waker).vsched_task != 0 ==> {
            &&& final(waker).vsched_wait == WAIT_NOTIFIED
            &&& old(waker).vsched_wait == WAIT_PARKED ==> action == (WakeAction::WakeExternal {
                task: old(waker).vsched_task,
                generation: old(waker).vsched_generation,
            })
            &&& old(waker).vsched_wait != WAIT_PARKED ==> action == WakeAction::Nothing
        },
        old(waker).vsched_task == 0 ==> {
            &&& final(waker).vsched_wait == old(waker).vsched_wait
            &&& alive ==> action == (WakeAction::Unblock { kernel_task: old(waker).task })
            &&& !alive ==> action == WakeAction::Nothing
        },
{
}

/// Of two wakes of a task that waits, the first asks for it to be made ready and the second
/// does not.
pub proof fn law_second_wake_asks_for_nothing(
    waker: &mut AxWaker,
    later: &mut AxWaker,
    first: bool,
    second: bool,
)
    requires
        call_ensures(AxWaker::notify, (waker,), first),
        *old(later) == *final(waker),
        call_ensures(AxWaker::notify, (later,), second),
    ensures
        first == (old(waker).vsched_wait == WAIT_PARKED),
        !second,
        final(later).vsched_wait == WAIT_NOTIFIED,
{
}

/// A wake that comes before a task begins to wait, or before it publishes that it does, is
/// taken there: the task does not wait. Without one it does.
pub proof fn law_noted_wake_keeps_the_task_awake(
    waker: &mut AxWaker,
    other: &mut AxWaker,
    parking: bool,
    parked: bool,
)
    requires
        call_ensures(AxWaker::begin_park, (waker,), parking),
        call_ensures(AxWaker::commit_park, (other,), parked),
    ensures
        old(waker).vsched_wait == WAIT_NOTIFIED ==> !parking && final(waker).vsched_wait
            == WAIT_IDLE,
        old(waker).vsched_wait == WAIT_IDLE ==> parking && final(waker).vsched_wait
            == WAIT_PARKING,
        old(other).vsched_wait == WAIT_NOTIFIED ==> !parked && final(other).vsched_wait
            == WAIT_IDLE,
        old(other).vsched_wait == WAIT_PARKING ==> parked && final(other).vsched_wait
            == WAIT_PARKED,
        final(waker).vsched_task == old(waker).vsched_task,
        final(other).vsched_task == old(other).vsched_task,
{
}

/// A wait that is given up, or has ended, leaves nothing behind.
pub proof fn law_ended_wait_leaves_nothing(
    aborted: &mut AxWaker,
    finished: &mut AxWaker,
)
    requires
        call_ensures(AxWaker::abort_park, (aborted,), ()),
        call_ensures(AxWaker::finish_park, (finished,), ()),
    ensures
        final(aborted).vsched_wait == WAIT_IDLE,
        final(finished).vsched_wait == WAIT_IDLE,
{
}

/// A new waker wakes the task that it was made for, under the scheduler that owned the wait.
pub proof fn law_waker_is_of_its_task(
    task: u64,
    external: Option<(usize, usize)>,
    waker: AxWaker,
)
    requires
        call_ensures(AxWaker::new, (task, external), waker),
    ensures
        waker.task == task,
        !waker.woke,
        waker.vsched_wait == WAIT_IDLE,
        external matches Some(e) ==> waker.vsched_task == e.0 && waker.vsched_generation == e.1,
        external is None ==> waker.vsched_task == 0,
{
}

/// A wait is owned by the external scheduler exactly if that runs.
pub proof fn law_running_scheduler_owns_the_wait(
    hooks: SchedulerHooks,
    answer: (usize, usize),
    owner: Option<(usize, usize)>,
)
    requires
        call_ensures(wait_owner, (&hooks, answer), owner),
    ensures
        hooks.vsched2_yield != 0 ==> owner == Some(answer),
        hooks.vsched2_yield == 0 ==> owner is None,
{
}

/// The loop returns exactly when its future is resolved. While it is not, a wake that has been
/// noted has the future polled again; otherwise the task begins to block.
pub proof fn law_pending_future_is_polled_or_waited_for(
    waker: &mut AxWaker,
    ready: bool,
    toggle: usize,
    next: (BlockOnPhase, BlockOnAction),
)
    requires
        call_ensures(
            block_on,
            (waker, BlockOnPhase::Polling, BlockOnEvent::Polled { ready }, toggle),
            next,
        ),
    ensures
        ready <==> next.1 == BlockOnAction::Return,
        ready ==> next.0 == BlockOnPhase::Finished,
        !ready && old(waker).vsched_wait == WAIT_NOTIFIED ==> {
            &&& next == (BlockOnPhase::Polling, BlockOnAction::Poll)
            &&& final(waker).vsched_wait == WAIT_IDLE
        },
        !ready && old(waker).vsched_wait != WAIT_NOTIFIED ==> {
            &&& next == (BlockOnPhase::Committing, BlockOnAction::StartBlocking)
            &&& final(waker).vsched_wait == WAIT_PARKING
        },
{
}

/// A task that has begun to block publishes that it waits, unless it was refused or woken
/// meanwhile: then it takes its blocking back, if it had begun, and polls again. A task that
/// waits leaves the CPU, as a thread where a context hook is there.
pub proof fn law_blocking_is_published_or_taken_back(
    waker: &mut AxWaker,
    done: bool,
    toggle: usize,
    next: (BlockOnPhase, BlockOnAction),
)
    requires
        call_ensures(
            block_on,
            (waker, BlockOnPhase::Committing, BlockOnEvent::StateHook { done }, toggle),
            next,
        ),
    ensures
        !done ==> next == (BlockOnPhase::Polling, BlockOnAction::Poll) && final(waker).vsched_wait
            == WAIT_IDLE,
        done && old(waker).vsched_wait == WAIT_NOTIFIED ==> next == (
            BlockOnPhase::Cancelling,
            BlockOnAction::CancelBlocking,
        ) && final(waker).vsched_wait == WAIT_IDLE,
        done && old(waker).vsched_wait != WAIT_NOTIFIED ==> {
            &&& final(waker).vsched_wait == WAIT_PARKED
            &&& toggle != 0 ==> next == (BlockOnPhase::Promoting, BlockOnAction::PromoteContext)
            &&& toggle == 0 ==> next == (
                BlockOnPhase::Suspended { promoted: false },
                BlockOnAction::Yield,
            )
        },
{
}

/// A task whose blocking was taken back polls its future again; one that was made a thread
/// leaves the CPU; and one that runs again is made a coroutine again exactly if it was made a
/// thread, before the wake is taken and its future polled.
pub proof fn law_resumed_task_polls_again(
    waker: &mut AxWaker,
    phase: BlockOnPhase,
    event: BlockOnEvent,
    toggle: usize,
    next: (BlockOnPhase, BlockOnAction),
)
    requires
        call_ensures(block_on, (waker, phase, event, toggle), next),
    ensures
        phase is Cancelling && event is StateHook ==> next == (
            BlockOnPhase::Polling,
            BlockOnAction::Poll,
        ) && final(waker).vsched_wait == old(waker).vsched_wait,
        phase is Promoting && event is ContextHook ==> next == (
            BlockOnPhase::Suspended { promoted: event->ContextHook_done },
            BlockOnAction::Yield,
        ) && final(waker).vsched_wait == old(waker).vsched_wait,
        phase == (BlockOnPhase::Suspended { promoted: true }) && event is Resumed ==> next == (
            BlockOnPhase::Restoring,
            BlockOnAction::RestoreContext,
        ) && final(waker).vsched_wait == old(waker).vsched_wait,
        phase == (BlockOnPhase::Suspended { promoted: false }) && event is Resumed ==> next == (
            BlockOnPhase::Polling,
            BlockOnAction::Poll,
        ) && final(waker).vsched_wait == WAIT_IDLE,
        phase is Restoring && event is ContextHook ==> next == (
            BlockOnPhase::Polling,
            BlockOnAction::Poll,
        ) && final(waker).vsched_wait == WAIT_IDLE,
        final(waker).task == old(waker).task,
        final(waker).woke == old(waker).woke,
        final(waker).vsched_task == old(waker).vsched_task,
        final(waker).vsched_generation == old(waker).vsched_generation,
{
}

/// Without an external scheduler a task leaves the run queue only if it has not been woken.
pub proof fn law_woken_task_stays_in_the_run_queue(waker: AxWaker, action: LegacyPending)
    requires
        call_ensures(block_on_legacy_pending, (&waker,), action),
    ensures
        waker.woke <==> action == LegacyPending::YieldNow,
        !waker.woke <==> action == LegacyPending::BlockedResched,
{
}

/// A future that can be interrupted is resolved by an interruption, whatever it is itself, and
/// otherwise exactly when it is, with its own output.
pub proof fn law_interruption_resolves_a_future(
    interrupted: bool,
    output: Option<isize>,
    polled: Option<Result<isize, Interrupted>>,
)
    requires
        call_ensures(interruptible, (interrupted, output), polled),
    ensures
        interrupted <==> (polled matches Some(r) && r is Err),
        !interrupted ==> (polled is Some <==> output is Some),
        !interrupted && output is Some ==> polled == Some(Ok::<isize, Interrupted>(output.unwrap())),
{
}

} // verus!
