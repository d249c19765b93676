//! The waker of a blocked task, and the loop that blocks a task on a future.
//!
//! The polling task and its wakers meet in one word, `vsched_wait`. Every operation
//! on it is one atomic step, so each method here is one step of the handshake, and
//! what holds after any order of such steps holds on any number of CPUs.

use vstd::prelude::*;

use crate::axtask::api::{block_on_current_task, vsched2_active, SchedulerHooks};

verus! {

/// Nobody waits and nobody has woken.
pub const WAIT_IDLE: u8 = 0;

/// The task is about to wait.
pub const WAIT_PARKING: u8 = 1;

/// The task waits, and its scheduling state says so.
pub const WAIT_PARKED: u8 = 2;

/// Somebody has woken the task, which has not seen it yet.
pub const WAIT_NOTIFIED: u8 = 3;

/// The waker of a task that blocks on a future.
pub struct AxWaker {
    /// The ID of the task that the kernel's own run queue would unblock.
    pub task: u64,
    pub woke: bool,
    /// Where the polling task and its wakers meet, across CPUs.
    ///
    /// A waker may touch the scheduling state of the task only when this is
    /// `WAIT_PARKED`. Before that it leaves `WAIT_NOTIFIED`: the polling task then takes
    /// its blocking back and polls again, and no wake is lost.
    pub vsched_wait: u8,
    /// The task of the external scheduler that holds the suspended computation, or 0.
    ///
    /// It need not be `task`: a trap handler runs under the identity of the user task
    /// that trapped.
    pub vsched_task: usize,
    pub vsched_generation: usize,
}

/// Whom a wake concerns.
#[derive(Clone, Copy, Debug, Eq, PartialEq, Structural)]
pub enum WakeAction {
    /// Nobody: the polling task will see the wake by itself.
    Nothing,
    /// The external scheduler's task, in its wait generation.
    WakeExternal { task: usize, generation: usize },
    /// The task in the kernel's own run queue.
    Unblock { kernel_task: u64 },
}

/// Whether `state` is a state of the handshake.
pub open spec fn is_wait_state(state: u8) -> bool {
    state == WAIT_IDLE || state == WAIT_PARKING || state == WAIT_PARKED || state == WAIT_NOTIFIED
}

impl AxWaker {
    /// The waker with its part of the handshake in another state.
    pub open spec fn with_wait(self, state: u8) -> AxWaker {
        AxWaker { vsched_wait: state, ..self }
    }

    /// Makes the waker of the task `task`. `external` is the external scheduler's
    /// current task with its wait generation, if that scheduler owns the wait. Whoever owns it
    /// when the waker is made owns it for good, whichever scheduler runs when a wake comes.
    pub fn new(task: u64, external: Option<(usize, usize)>) -> (waker: Self)
        ensures
            waker == (AxWaker {
                task,
                woke: false,
                vsched_wait: WAIT_IDLE,
                vsched_task: if external.is_some() {
                    external.unwrap().0
                } else {
                    0
                },
                vsched_generation: if external.is_some() {
                    external.unwrap().1
                } else {
                    0
                },
            }),
    {
        let (vsched_task, vsched_generation): (usize, usize) = match external {
            Some(e) => e,
            None => (0, 0),
        };
        AxWaker { task, woke: false, vsched_wait: WAIT_IDLE, vsched_task, vsched_generation }
    }

    /// Begins to wait. A wake that came while the future was polled is taken here, and
    /// the future must be polled again.
    pub fn begin_park(&mut self) -> (parking: bool)
        requires
            old(self).vsched_wait == WAIT_IDLE || old(self).vsched_wait == WAIT_NOTIFIED,
        ensures
            parking == (old(self).vsched_wait == WAIT_IDLE),
            *final(self) == old(self).with_wait(
                if parking {
                    WAIT_PARKING
                } else {
                    WAIT_IDLE
                },
            ),
    {
        if self.vsched_wait == WAIT_IDLE {
            self.vsched_wait = WAIT_PARKING;
            true
        } else {
            self.vsched_wait = WAIT_IDLE;
            false
        }
    }

    /// Publishes that the task's state is blocking already. From then on a waker may
    /// make it ready. A wake that came before that is taken here, and the blocking must be
    /// taken back.
    pub fn commit_park(&mut self) -> (parked: bool)
        requires
            old(self).vsched_wait == WAIT_PARKING || old(self).vsched_wait == WAIT_NOTIFIED,
        ensures
            parked == (old(self).vsched_wait == WAIT_PARKING),
            *final(self) == old(self).with_wait(
                if parked {
                    WAIT_PARKED
                } else {
                    WAIT_IDLE
                },
            ),
    {
        if self.vsched_wait == WAIT_PARKING {
            self.vsched_wait = WAIT_PARKED;
            true
        } else {
            self.vsched_wait = WAIT_IDLE;
            false
        }
    }

    /// Gives up waiting before it was published.
    pub fn abort_park(&mut self)
        requires
            old(self).vsched_wait == WAIT_PARKING,
        ensures
            *final(self) == old(self).with_wait(WAIT_IDLE),
    {
        self.vsched_wait = WAIT_IDLE;
    }

    /// Takes the wake that ended the wait.
    pub fn finish_park(&mut self)
        requires
            old(self).vsched_wait == WAIT_NOTIFIED,
        ensures
            *final(self) == old(self).with_wait(WAIT_IDLE),
    {
        self.vsched_wait = WAIT_IDLE;
    }

    /// Notes a wake. Returns whether the task had published that it waits: that one step
    /// owes it the call that makes it ready. Every earlier wake is taken by the polling
    /// task.
    pub fn notify(&mut self) -> (wake_task: bool)
        requires
            is_wait_state(old(self).vsched_wait),
        ensures
            wake_task == (old(self).vsched_wait == WAIT_PARKED),
            *final(self) == old(self).with_wait(WAIT_NOTIFIED),
    {
        if self.vsched_wait == WAIT_NOTIFIED {
            return false;
        }
        let wake_task: bool = self.vsched_wait == WAIT_PARKED;
        self.vsched_wait = WAIT_NOTIFIED;
        wake_task
    }

    /// Wakes the task, through the scheduler that owns the wait. `alive` says whether the
    /// kernel's task still exists.
    pub fn wake_by_ref(&mut self, alive: bool) -> (action: WakeAction)
        requires
            is_wait_state(old(self).vsched_wait),
        ensures
            action == (if old(self).vsched_task != 0 {
                if old(self).vsched_wait == WAIT_PARKED {
                    WakeAction::WakeExternal {
                        task: old(self).vsched_task,
                        generation: old(self).vsched_generation,
                    }
                } else {
                    WakeAction::Nothing
                }
            } else if alive {
                WakeAction::Unblock { kernel_task: old(self).task }
            } else {
                WakeAction::Nothing
            }),
            *final(self) == (AxWaker {
                woke: true,
                vsched_wait: if old(self).vsched_task != 0 {
                    WAIT_NOTIFIED
                } else {
                    old(self).vsched_wait
                },
                ..*old(self)
            }),
    {
        self.woke = true;
        if self.vsched_task != 0 {
            if self.notify() {
                return WakeAction::WakeExternal {
                    task: self.vsched_task,
                    generation: self.vsched_generation,
                };
            }
        } else if alive {
            return WakeAction::Unblock { kernel_task: self.task };
        }
        WakeAction::Nothing
    }
}

/// Who owns a wait that begins: the external scheduler's current task, with its wait
/// generation, if that scheduler runs, and otherwise nobody but the kernel's own run queue.
/// `answer` is what the hook for the current task says. A scheduler that runs has all its hooks
/// registered, and a current task.
pub fn wait_owner(hooks: &SchedulerHooks, answer: (usize, usize)) -> (owner: Option<
    (usize, usize),
>)
    requires
        hooks.vsched2_yield != 0 ==> {
            &&& hooks.block_on_current != 0
            &&& hooks.block_on_wake != 0
            &&& hooks.block_on_state != 0
            &&& hooks.block_on_toggle != 0
            &&& answer.0 != 0
        },
    ensures
        owner == (if hooks.vsched2_yield != 0 {
            Some(answer)
        } else {
            None
        }),
{
    if vsched2_active(hooks) {
        block_on_current_task(hooks, answer)
    } else {
        None
    }
}

/// What the loop that blocks a task on a future waits for.
#[derive(Clone, Copy, Debug, Eq, PartialEq, Structural)]
pub enum BlockOnPhase {
    /// For a poll of the future.
    Polling,
    /// For the answer of the state hook to `StartBlocking`.
    Committing,
    /// For the answer of the state hook to `CancelBlocking`.
    Cancelling,
    /// For the answer of the context hook to `PromoteContext`.
    Promoting,
    /// For the task to be resumed.
    Suspended { promoted: bool },
    /// For the answer of the context hook to `RestoreContext`.
    Restoring,
    /// For nothing: the future is resolved.
    Finished,
}

/// What the loop is told.
#[derive(Clone, Copy, Debug, Eq, PartialEq, Structural)]
pub enum BlockOnEvent {
    /// The future was polled: it is resolved, or pending.
    Polled { ready: bool },
    /// The state hook answered.
    StateHook { done: bool },
    /// The context hook answered.
    ContextHook { done: bool },
    /// The task runs again after it yielded.
    Resumed,
}

/// What the loop asks for.
#[derive(Clone, Copy, Debug, Eq, PartialEq, Structural)]
pub enum BlockOnAction {
    /// Poll the future, with interrupts as they were before the loop disabled them.
    Poll,
    /// Change the task's state from running to blocking.
    StartBlocking,
    /// Change the task's state from blocking back to running.
    CancelBlocking,
    /// Turn the task's coroutine into a thread that can be suspended where it is.
    PromoteContext,
    /// Turn the task's thread back into a coroutine.
    RestoreContext,
    /// Leave the CPU to the scheduler.
    Yield,
    /// Hand the future's output to the caller.
    Return,
}

/// What the loop owes to its environment: the events that can come in a phase.
///
/// The state hook is registered whenever the external scheduler runs. It undoes a
/// blocking that nobody saw. A waker that finds the task parked makes it ready, and
/// nothing else does, so a task that is resumed was notified. No waker comes between the
/// beginning of a wait and a refusal of the state hook.
pub open spec fn block_on_expects(wait: u8, phase: BlockOnPhase, event: BlockOnEvent) -> bool {
    match (phase, event) {
        (BlockOnPhase::Polling, BlockOnEvent::Polled { .. }) => true,
        (BlockOnPhase::Committing, BlockOnEvent::StateHook { done }) => done || wait
            == WAIT_PARKING,
        (BlockOnPhase::Cancelling, BlockOnEvent::StateHook { done }) => done,
        (BlockOnPhase::Promoting, BlockOnEvent::ContextHook { .. }) => true,
        (BlockOnPhase::Suspended { .. }, BlockOnEvent::Resumed) => wait == WAIT_NOTIFIED,
        (BlockOnPhase::Restoring, BlockOnEvent::ContextHook { .. }) => true,
        _ => false,
    }
}

/// The states of the handshake in which a phase can find it.
pub open spec fn block_on_consistent(wait: u8, phase: BlockOnPhase) -> bool {
    match phase {
        BlockOnPhase::Polling | BlockOnPhase::Cancelling | BlockOnPhase::Finished => wait
            == WAIT_IDLE || wait == WAIT_NOTIFIED,
        BlockOnPhase::Committing => wait == WAIT_PARKING || wait == WAIT_NOTIFIED,
        BlockOnPhase::Promoting | BlockOnPhase::Suspended { .. } => wait == WAIT_PARKED || wait
            == WAIT_NOTIFIED,
        BlockOnPhase::Restoring => wait == WAIT_NOTIFIED,
    }
}

/// One round of the loop: the handshake, the phase and what is asked for after `event`.
/// `toggle` says whether a context hook is registered.
pub open spec fn block_on_next(
    wait: u8,
    phase: BlockOnPhase,
    event: BlockOnEvent,
    toggle: bool,
) -> (u8, BlockOnPhase, BlockOnAction) {
    match (phase, event) {
        (BlockOnPhase::Polling, BlockOnEvent::Polled { ready }) => if ready {
            (wait, BlockOnPhase::Finished, BlockOnAction::Return)
        } else if wait == WAIT_NOTIFIED {
            (WAIT_IDLE, BlockOnPhase::Polling, BlockOnAction::Poll)
        } else {
            (WAIT_PARKING, BlockOnPhase::Committing, BlockOnAction::StartBlocking)
        },
        (BlockOnPhase::Committing, BlockOnEvent::StateHook { done }) => if !done {
            (WAIT_IDLE, BlockOnPhase::Polling, BlockOnAction::Poll)
        } else if wait == WAIT_NOTIFIED {
            (WAIT_IDLE, BlockOnPhase::Cancelling, BlockOnAction::CancelBlocking)
        } else if toggle {
            (WAIT_PARKED, BlockOnPhase::Promoting, BlockOnAction::PromoteContext)
        } else {
            (WAIT_PARKED, BlockOnPhase::Suspended { promoted: false }, BlockOnAction::Yield)
        },
        (BlockOnPhase::Cancelling, BlockOnEvent::StateHook { .. }) => (
            wait,
            BlockOnPhase::Polling,
            BlockOnAction::Poll,
        ),
        (BlockOnPhase::Promoting, BlockOnEvent::ContextHook { done }) => (
            wait,
            BlockOnPhase::Suspended { promoted: done },
            BlockOnAction::Yield,
        ),
        (BlockOnPhase::Suspended { promoted }, BlockOnEvent::Resumed) => if promoted {
            (wait, BlockOnPhase::Restoring, BlockOnAction::RestoreContext)
        } else {
            (WAIT_IDLE, BlockOnPhase::Polling, BlockOnAction::Poll)
        },
        (BlockOnPhase::Restoring, BlockOnEvent::ContextHook { .. }) => (
            WAIT_IDLE,
            BlockOnPhase::Polling,
            BlockOnAction::Poll,
        ),
        _ => (wait, phase, BlockOnAction::Return),
    }
}

/// Blocks a task on a future under the external scheduler: takes the answer to what was
/// asked for last, and says what to do next. It starts with `Polling` and a poll of
/// the future, and ends with `Return`.
pub fn block_on(
    waker: &mut AxWaker,
    phase: BlockOnPhase,
    event: BlockOnEvent,
    toggle: usize,
) -> (next: (BlockOnPhase, BlockOnAction))
    requires
        block_on_consistent(old(waker).vsched_wait, phase),
        block_on_expects(old(waker).vsched_wait, phase, event),
    ensures
        ({
            let (wait, next_phase, action) = block_on_next(
                old(waker).vsched_wait,
                phase,
                event,
                toggle != 0,
            );
            &&& *final(waker) == old(waker).with_wait(wait)
            &&& next == (next_phase, action)
            &&& block_on_consistent(wait, next_phase)
        }),
{
    match phase {
        BlockOnPhase::Polling => {
            let ready: bool = match event {
                BlockOnEvent::Polled { ready } => ready,
                _ => true,
            };
            if ready {
                return (BlockOnPhase::Finished, BlockOnAction::Return);
            }
            if !waker.begin_park() {
                return (BlockOnPhase::Polling, BlockOnAction::Poll);
            }
            (BlockOnPhase::Committing, BlockOnAction::StartBlocking)
        },
        BlockOnPhase::Committing => {
            let state_committed: bool = match event {
                BlockOnEvent::StateHook { done } => done,
                _ => false,
            };
            if !state_committed {
                waker.abort_park();
                return (BlockOnPhase::Polling, BlockOnAction::Poll);
            }
            if !waker.commit_park() {
                return (BlockOnPhase::Cancelling, BlockOnAction::CancelBlocking);
            }
            if toggle != 0 {
                (BlockOnPhase::Promoting, BlockOnAction::PromoteContext)
            } else {
                (BlockOnPhase::Suspended { promoted: false }, BlockOnAction::Yield)
            }
        },
        BlockOnPhase::Cancelling => (BlockOnPhase::Polling, BlockOnAction::Poll),
        BlockOnPhase::Promoting => {
            let promoted: bool = match event {
                BlockOnEvent::ContextHook { done } => done,
                _ => false,
            };
            (BlockOnPhase::Suspended { promoted }, BlockOnAction::Yield)
        },
        BlockOnPhase::Suspended { promoted } => {
            if promoted {
                (BlockOnPhase::Restoring, BlockOnAction::RestoreContext)
            } else {
                waker.finish_park();
                (BlockOnPhase::Polling, BlockOnAction::Poll)
            }
        },
        BlockOnPhase::Restoring => {
            waker.finish_park();
            (BlockOnPhase::Polling, BlockOnAction::Poll)
        },
        BlockOnPhase::Finished => (BlockOnPhase::Finished, BlockOnAction::Return),
    }
}

/// What a task does that found its future pending while no external scheduler runs.
#[derive(Clone, Copy, Debug, Eq, PartialEq, Structural)]
pub enum LegacyPending {
    /// It leaves the run queue until it is woken.
    BlockedResched,
    /// It lets another task run and stays in the run queue.
    YieldNow,
}

/// Blocks a task on a pending future in the kernel's own run queue.
pub fn block_on_legacy_pending(waker: &AxWaker) -> (action: LegacyPending)
    ensures
        action == (if waker.woke {
            LegacyPending::YieldNow
        } else {
            LegacyPending::BlockedResched
        }),
{
    if !waker.woke {
        LegacyPending::BlockedResched
    } else {
        LegacyPending::YieldNow
    }
}

/// The error of a future that was interrupted.
#[derive(Clone, Copy, Debug, Eq, PartialEq, Structural)]
pub struct Interrupted {}

impl Interrupted {
    /// The error in words.
    pub fn message(&self) -> (text: &'static str)
        ensures
            text@ == "interrupted"@,
    {
        "interrupted"
    }
}

/// What a poll of a future that can be interrupted gives: the error if the task was
/// interrupted, whatever the future is; otherwise the future's output if it is resolved, and
/// nothing if it is not. `output` is not looked at if the task was interrupted.
pub fn interruptible(interrupted: bool, output: Option<isize>) -> (polled: Option<
    Result<isize, Interrupted>,
>)
    ensures
        polled == (if interrupted {
            Some(Err::<isize, Interrupted>(Interrupted {  }))
        } else {
            match output {
                Some(value) => Some(Ok(value)),
                None => None,
            }
        }),
{
    if interrupted {
        return Some(Err(Interrupted {  }));
    }
    match output {
        Some(value) => Some(Ok(value)),
        None => None,
    }
}

/// A step of the polling task's loop, or of one of its wakers.
#[derive(Clone, Copy, Debug, Eq, PartialEq, Structural)]
pub enum HandshakeStep {
    Loop { event: BlockOnEvent, toggle: bool },
    Notify,
}

/// The handshake's state and the loop's phase after a step.
pub open spec fn handshake_next(wait: u8, phase: BlockOnPhase, step: HandshakeStep) -> (
    u8,
    BlockOnPhase,
) {
    match step {
        HandshakeStep::Loop { event, toggle } => {
            let (next_wait, next_phase, _action) = block_on_next(wait, phase, event, toggle);
            (next_wait, next_phase)
        },
        HandshakeStep::Notify => (WAIT_NOTIFIED, phase),
    }
}

/// Whether the steps can follow each other: the loop gets the events that it expects,
/// and a waker can come at any time.
pub open spec fn is_handshake(wait: u8, phase: BlockOnPhase, steps: Seq<HandshakeStep>) -> bool
    decreases steps.len(),
{
    steps.len() == 0 || {
        let (next_wait, next_phase) = handshake_next(wait, phase, steps[0]);
        &&& steps[0] matches HandshakeStep::Loop { event, .. } ==> block_on_expects(
            wait,
            phase,
            event,
        )
        &&& is_handshake(next_wait, next_phase, steps.skip(1))
    }
}

/// The handshake's state and the loop's phase after all the steps.
pub open spec fn handshake_end(wait: u8, phase: BlockOnPhase, steps: Seq<HandshakeStep>) -> (
    u8,
    BlockOnPhase,
)
    decreases steps.len(),
{
    if steps.len() == 0 {
        (wait, phase)
    } else {
        let (next_wait, next_phase) = handshake_next(wait, phase, steps[0]);
        handshake_end(next_wait, next_phase, steps.skip(1))
    }
}

/// How often, in the course of the steps, the task published that it waits, a waker
/// owed it the call that makes it ready, and the task went on after a wait.
pub open spec fn handshake_counts(wait: u8, phase: BlockOnPhase, steps: Seq<HandshakeStep>) -> (
    nat,
    nat,
    nat,
)
    decreases steps.len(),
{
    if steps.len() == 0 {
        (0, 0, 0)
    } else {
        let (next_wait, next_phase) = handshake_next(wait, phase, steps[0]);
        let (parks, wakes, resumes) = handshake_counts(next_wait, next_phase, steps.skip(1));
        match steps[0] {
            HandshakeStep::Notify => (
                parks,
                wakes + if wait == WAIT_PARKED {
                    1nat
                } else {
                    0nat
                },
                resumes,
            ),
            HandshakeStep::Loop { .. } => (
                parks + if wait != WAIT_PARKED && next_wait == WAIT_PARKED {
                    1nat
                } else {
                    0nat
                },
                wakes,
                resumes + if (phase is Suspended || phase is Restoring) && next_phase is Polling {
                    1nat
                } else {
                    0nat
                },
            ),
        }
    }
}

/// In whatever order a task and its wakers take their steps, the handshake and the loop
/// stay in step with each other.
pub proof fn law_handshake_stays_consistent(
    wait: u8,
    phase: BlockOnPhase,
    steps: Seq<HandshakeStep>,
)
    requires
        block_on_consistent(wait, phase),
        is_handshake(wait, phase, steps),
    ensures
        ({
            let (end_wait, end_phase) = handshake_end(wait, phase, steps);
            block_on_consistent(end_wait, end_phase)
        }),
    decreases steps.len(),
{
    if steps.len() > 0 {
        let (next_wait, next_phase) = handshake_next(wait, phase, steps[0]);
        law_handshake_stays_consistent(next_wait, next_phase, steps.skip(1));
    }
}

/// How many waits of the task have been ended by a waker, and not been returned from, in a
/// phase of the loop: the difference between waits and returns, and that between wakes and
/// returns.
pub open spec fn open_waits(wait: u8, phase: BlockOnPhase) -> (nat, nat) {
    match phase {
        BlockOnPhase::Promoting | BlockOnPhase::Suspended { .. } => (
            1,
            if wait == WAIT_NOTIFIED {
                1
            } else {
                0
            },
        ),
        BlockOnPhase::Restoring => (1, 1),
        _ => (0, 0),
    }
}

/// Each wait that a task publishes is ended by exactly one waker: of all wakes, however
/// many come, one and only one owes the task the call that makes it ready.
pub proof fn law_one_wake_per_wait(wait: u8, phase: BlockOnPhase, steps: Seq<HandshakeStep>)
    requires
        block_on_consistent(wait, phase),
        is_handshake(wait, phase, steps),
    ensures
        ({
            let (end_wait, end_phase) = handshake_end(wait, phase, steps);
            let (parks, wakes, resumes) = handshake_counts(wait, phase, steps);
            &&& open_waits(wait, phase).0 + parks == open_waits(end_wait, end_phase).0 + resumes
            &&& open_waits(wait, phase).1 + wakes == open_waits(end_wait, end_phase).1 + resumes
        }),
    decreases steps.len(),
{
    if steps.len() > 0 {
        let (next_wait, next_phase) = handshake_next(wait, phase, steps[0]);
        law_one_wake_per_wait(next_wait, next_phase, steps.skip(1));
    }
}

/// Whether the steps make the task leave the CPU before it polls its future again or
/// returns.
pub open spec fn yields_before_poll(wait: u8, phase: BlockOnPhase, steps: Seq<HandshakeStep>) -> bool
    decreases steps.len(),
{
    if steps.len() == 0 {
        false
    } else {
        let (next_wait, next_phase) = handshake_next(wait, phase, steps[0]);
        match steps[0] {
            HandshakeStep::Notify => yields_before_poll(next_wait, next_phase, steps.skip(1)),
            HandshakeStep::Loop { event, toggle } => {
                let (_w, _p, action) = block_on_next(wait, phase, event, toggle);
                if action == BlockOnAction::Poll || action == BlockOnAction::Return {
                    false
                } else if action == BlockOnAction::Yield {
                    true
                } else {
                    yields_before_poll(next_wait, next_phase, steps.skip(1))
                }
            },
        }
    }
}

/// A wake that comes before the task has published that it waits is not lost: the task
/// polls its future again, or returns, before it leaves the CPU.
pub proof fn law_early_wake_is_not_lost(phase: BlockOnPhase, steps: Seq<HandshakeStep>)
    requires
        phase is Polling || phase is Committing,
        is_handshake(WAIT_NOTIFIED, phase, steps),
    ensures
        !yields_before_poll(WAIT_NOTIFIED, phase, steps),
    decreases steps.len(),
{
    if steps.len() > 0 {
        let rest = steps.skip(1);
        match steps[0] {
            HandshakeStep::Notify => law_early_wake_is_not_lost(phase, rest),
            HandshakeStep::Loop { .. } => {
                let (next_wait, next_phase) = handshake_next(WAIT_NOTIFIED, phase, steps[0]);
                if next_phase is Cancelling {
                    lemma_cancelling_polls_next(next_wait, rest);
                }
            },
        }
    }
}

proof fn lemma_cancelling_polls_next(wait: u8, steps: Seq<HandshakeStep>)
    requires
        is_handshake(wait, BlockOnPhase::Cancelling, steps),
    ensures
        !yields_before_poll(wait, BlockOnPhase::Cancelling, steps),
    decreases steps.len(),
{
    if steps.len() > 0 && steps[0] is Notify {
        lemma_cancelling_polls_next(WAIT_NOTIFIED, steps.skip(1));
    }
}

/// A wake that comes after the task has published that it waits makes it ready, and it is
/// only then that a wake touches the task's scheduling state.
pub proof fn law_wake_reaches_only_a_waiting_task(wait: u8, phase: BlockOnPhase)
    requires
        block_on_consistent(wait, phase),
    ensures
        wait == WAIT_PARKED ==> phase is Promoting || phase is Suspended,
        phase is Suspended ==> block_on_expects(WAIT_NOTIFIED, phase, BlockOnEvent::Resumed),
{
}

} // verus!
