//! The hooks of the task API, wakers, and the task that a CPU runs.

use vsched::asynctask::current::CurrentTask;
use vsched::asynctask::timers::{cancel_alarm, check_events, init, set_alarm_wakeup};
use vsched::axtask::api::{
    active_cpu_num, begin_with_current_task, block_on_current_task, current, current_may_uninit,
    end_with_current_task, exit, init_scheduler_with_cpu_num,
    install_current_task_for_external_scheduler, on_timer_tick, register_block_on_hooks,
    register_block_on_toggle, register_external_scheduler_hooks, register_vsched2_yield,
    run_task_entry_for_external_scheduler, set_current_affinity, set_priority, spawn_task,
    transition_block_on_task, vsched2_active, wake_block_on_task, yield_now, AffinityAction, AxCpuMask,
    CurrentSlot, ExitCall, ExternalHooks, PriorityCall, SchedulerHooks, SpawnCall, StateCall,
    TaskRef, TimerTick, WakeCall, YieldAction,
};
use vsched::axtask::waker::{
    block_on, block_on_legacy_pending, interruptible, wait_owner, AxWaker, BlockOnAction, BlockOnEvent,
    BlockOnPhase, Interrupted, LegacyPending, WakeAction, WAIT_IDLE, WAIT_NOTIFIED, WAIT_PARKED,
    WAIT_PARKING,
};
use vsched::state::{
    from_vsched_state, state_from_raw, state_to_raw, to_vsched_state, AxTaskState, TaskState,
};
use vsched::syscall::context::SysError;

const EXTERNAL: ExternalHooks =
    ExternalHooks { spawn: 0x61, exit: 0x62, priority: 0x63, affinity: 0x64 };

#[test]
fn hooks_decide_once_they_are_registered() {
    let mut hooks = SchedulerHooks::new();
    assert!(!vsched2_active(&hooks));
    assert_eq!(
        on_timer_tick(&hooks),
        TimerTick { check_events: true, tick_run_queue: true }
    );
    assert_eq!(yield_now(&hooks), YieldAction::YieldCurrent);
    assert_eq!(block_on_current_task(&hooks, (8, 1)), None);
    assert_eq!(wake_block_on_task(&hooks, 8, 1), None);
    assert_eq!(transition_block_on_task(&hooks, true), None);
    assert_eq!(active_cpu_num(&hooks), 1);

    init_scheduler_with_cpu_num(&mut hooks, 4);
    register_block_on_toggle(&mut hooks, 0x10);
    register_block_on_hooks(&mut hooks, 0x20, 0x30, 0x40);
    register_vsched2_yield(&mut hooks, 0x50);
    assert!(vsched2_active(&hooks));
    assert_eq!(
        on_timer_tick(&hooks),
        TimerTick { check_events: true, tick_run_queue: false }
    );
    assert_eq!(yield_now(&hooks), YieldAction::CallExternal { hook: 0x50 });
    assert_eq!(hooks.block_on_toggle, 0x10);
    assert_eq!(block_on_current_task(&hooks, (8, 1)), Some((8, 1)));
    assert_eq!(block_on_current_task(&hooks, (0, 1)), None);
    assert_eq!(
        wake_block_on_task(&hooks, 8, 3),
        Some(WakeCall { hook: 0x30, task: 8, generation: 3 })
    );
    assert_eq!(wake_block_on_task(&hooks, 0, 3), None);
    assert_eq!(
        transition_block_on_task(&hooks, false),
        Some(StateCall { hook: 0x40, blocking: false })
    );
    assert_eq!(active_cpu_num(&hooks), 4);
}

fn mask(cpus: &[usize]) -> AxCpuMask {
    let mut words = [0; 8];
    for cpu in cpus {
        words[cpu / 128] |= 1 << (cpu % 128);
    }
    AxCpuMask { words }
}

#[test]
fn affinity_moves_a_task_only_off_a_forbidden_cpu() {
    let mut hooks = SchedulerHooks::new();
    assert_eq!(set_current_affinity(&hooks, mask(&[]), 0), AffinityAction::Reject);
    assert_eq!(set_current_affinity(&hooks, mask(&[2]), 2), AffinityAction::Stay);
    assert_eq!(set_current_affinity(&hooks, mask(&[2]), 1), AffinityAction::Migrate);
    assert_eq!(set_current_affinity(&hooks, mask(&[63]), 63), AffinityAction::Stay);
    assert_eq!(set_current_affinity(&hooks, mask(&[130, 1023]), 130), AffinityAction::Stay);
    assert_eq!(set_current_affinity(&hooks, mask(&[130, 1023]), 1023), AffinityAction::Stay);
    assert_eq!(set_current_affinity(&hooks, mask(&[130, 1023]), 2), AffinityAction::Migrate);
    register_external_scheduler_hooks(&mut hooks, EXTERNAL);
    assert_eq!(
        set_current_affinity(&hooks, mask(&[2]), 2),
        AffinityAction::CallExternal { hook: 0x64, mask: mask(&[2]) }
    );
}

#[test]
fn an_external_scheduler_takes_the_kernels_tasks() {
    let mut hooks = SchedulerHooks::new();
    assert_eq!(spawn_task(&hooks), SpawnCall::AddToRunQueue);
    assert_eq!(exit(&hooks, 3), ExitCall::ExitCurrent { exit_code: 3 });
    assert_eq!(set_priority(&hooks, 4), PriorityCall::SetCurrent { prio: 4 });
    register_external_scheduler_hooks(&mut hooks, EXTERNAL);
    assert_eq!(spawn_task(&hooks), SpawnCall::CallExternal { hook: 0x61 });
    assert_eq!(exit(&hooks, 3), ExitCall::CallExternal { hook: 0x62, exit_code: 3 });
    assert_eq!(set_priority(&hooks, 4), PriorityCall::CallExternal { hook: 0x63, prio: 4 });
    // The task API has been taken over before the scheduler runs.
    assert!(!vsched2_active(&hooks));
}

#[test]
fn the_current_task_is_put_back() {
    let mut slot = CurrentSlot { ptr: 0x100 };
    let before = begin_with_current_task(&mut slot, TaskRef { addr: 0x200 });
    assert_eq!(slot.ptr, 0x200);
    let released = end_with_current_task(&mut slot, before);
    assert_eq!(slot.ptr, 0x100);
    assert_eq!(released.addr, 0x200);
}

#[test]
fn a_wait_is_owned_by_the_scheduler_that_runs_when_it_begins() {
    let mut hooks = SchedulerHooks::new();
    assert_eq!(wait_owner(&hooks, (0x1000, 5)), None);
    register_block_on_toggle(&mut hooks, 0x10);
    register_block_on_hooks(&mut hooks, 0x20, 0x30, 0x40);
    register_vsched2_yield(&mut hooks, 0x50);
    assert_eq!(wait_owner(&hooks, (0x1000, 5)), Some((0x1000, 5)));
}

#[test]
fn an_entry_is_run_under_its_task() {
    let mut slot = CurrentSlot { ptr: 0 };
    assert!(current_may_uninit(&slot).is_none());
    let run = run_task_entry_for_external_scheduler(&mut slot, TaskRef { addr: 0x40 });
    assert_eq!(run, (None, 0x40));
    assert_eq!(current(&slot).task.addr, 0x40);
    assert_eq!(current_may_uninit(&slot).unwrap().task.addr, 0x40);
    let run = run_task_entry_for_external_scheduler(&mut slot, TaskRef { addr: 0x80 });
    assert_eq!(run, (Some(TaskRef { addr: 0x40 }), 0x80));
}

#[test]
fn a_task_that_is_installed_releases_the_one_before() {
    let mut slot = CurrentSlot { ptr: 0 };
    assert!(
        install_current_task_for_external_scheduler(&mut slot, TaskRef { addr: 8 }).is_none()
    );
    let again = install_current_task_for_external_scheduler(&mut slot, TaskRef { addr: 8 });
    assert_eq!(again, Some(TaskRef { addr: 8 }));
    let other = install_current_task_for_external_scheduler(&mut slot, TaskRef { addr: 16 });
    assert_eq!(other, Some(TaskRef { addr: 8 }));
    assert_eq!(slot.ptr, 16);
}

#[test]
fn the_current_task_of_a_cpu_comes_and_goes() {
    let mut slot = CurrentSlot { ptr: 0 };
    assert!(CurrentTask::try_get(&slot).is_none());
    let state = CurrentTask::init_current(&mut slot, TaskRef { addr: 0x40 }, true);
    assert_eq!(state, AxTaskState::Running);
    let current = CurrentTask::get(&slot);
    assert_eq!(current.as_task_ref().addr, 0x40);
    assert_eq!(current.clone().addr, 0x40);
    assert!(current.ptr_eq(&TaskRef { addr: 0x40 }));
    assert!(!current.ptr_eq(&TaskRef { addr: 0x41 }));
    assert_eq!(current.waker(&slot), 0x40);
    let released = CurrentTask::set_current(&mut slot, current, TaskRef { addr: 0x80 });
    assert_eq!(released.addr, 0x40);
    assert_eq!(CurrentTask::clean_current(&mut slot).addr, 0x80);
    assert_eq!(slot.ptr, 0);
    slot.ptr = 0xc0;
    assert_eq!(CurrentTask::clean_current_without_drop(&mut slot), 0xc0);
    assert_eq!(slot.ptr, 0);
}

#[test]
fn a_wake_before_the_wait_makes_the_task_poll_again() {
    let mut waker = AxWaker::new(1, Some((0x1000, 5)));
    assert!(!waker.notify());
    assert!(!waker.begin_park());
    assert_eq!(waker.vsched_wait, WAIT_IDLE);
    assert!(waker.begin_park());
    assert!(!waker.notify());
    assert!(!waker.commit_park());
    assert_eq!(waker.vsched_wait, WAIT_IDLE);
}

#[test]
fn one_wake_of_a_waiting_task_owes_the_call() {
    let mut waker = AxWaker::new(1, Some((0x1000, 5)));
    assert!(waker.begin_park());
    assert_eq!(waker.vsched_wait, WAIT_PARKING);
    assert!(waker.commit_park());
    assert_eq!(waker.vsched_wait, WAIT_PARKED);
    assert_eq!(
        waker.wake_by_ref(true),
        WakeAction::WakeExternal { task: 0x1000, generation: 5 }
    );
    assert_eq!(waker.wake_by_ref(true), WakeAction::Nothing);
    assert_eq!(waker.vsched_wait, WAIT_NOTIFIED);
    waker.finish_park();
    assert_eq!(waker.vsched_wait, WAIT_IDLE);
    assert!(waker.begin_park());
    waker.abort_park();
    assert_eq!(waker.vsched_wait, WAIT_IDLE);
}

#[test]
fn without_the_external_scheduler_a_wake_unblocks_the_task() {
    let mut waker = AxWaker::new(7, None);
    assert_eq!(block_on_legacy_pending(&waker), LegacyPending::BlockedResched);
    assert_eq!(waker.wake_by_ref(false), WakeAction::Nothing);
    assert_eq!(waker.wake_by_ref(true), WakeAction::Unblock { kernel_task: 7 });
    assert_eq!(waker.vsched_wait, WAIT_IDLE);
    assert_eq!(block_on_legacy_pending(&waker), LegacyPending::YieldNow);
}

#[test]
fn a_task_blocks_and_goes_on_with_its_context_restored() {
    let mut waker = AxWaker::new(1, Some((0x1000, 5)));
    let (phase, action) = block_on(
        &mut waker,
        BlockOnPhase::Polling,
        BlockOnEvent::Polled { ready: false },
        0x10,
    );
    assert_eq!(action, BlockOnAction::StartBlocking);
    let (phase, action) =
        block_on(&mut waker, phase, BlockOnEvent::StateHook { done: true }, 0x10);
    assert_eq!(action, BlockOnAction::PromoteContext);
    let (phase, action) =
        block_on(&mut waker, phase, BlockOnEvent::ContextHook { done: true }, 0x10);
    assert_eq!(action, BlockOnAction::Yield);
    assert!(waker.notify());
    let (phase, action) = block_on(&mut waker, phase, BlockOnEvent::Resumed, 0x10);
    assert_eq!(action, BlockOnAction::RestoreContext);
    let (phase, action) =
        block_on(&mut waker, phase, BlockOnEvent::ContextHook { done: true }, 0x10);
    assert_eq!((phase, action), (BlockOnPhase::Polling, BlockOnAction::Poll));
    let (phase, action) =
        block_on(&mut waker, phase, BlockOnEvent::Polled { ready: true }, 0x10);
    assert_eq!((phase, action), (BlockOnPhase::Finished, BlockOnAction::Return));
}

#[test]
fn a_wake_between_the_steps_takes_the_blocking_back() {
    let mut waker = AxWaker::new(1, Some((0x1000, 5)));
    let (phase, _) =
        block_on(&mut waker, BlockOnPhase::Polling, BlockOnEvent::Polled { ready: false }, 0);
    assert!(!waker.notify());
    let (phase, action) = block_on(&mut waker, phase, BlockOnEvent::StateHook { done: true }, 0);
    assert_eq!(action, BlockOnAction::CancelBlocking);
    let (phase, action) = block_on(&mut waker, phase, BlockOnEvent::StateHook { done: true }, 0);
    assert_eq!((phase, action), (BlockOnPhase::Polling, BlockOnAction::Poll));
}

#[test]
fn an_interrupt_comes_before_the_output() {
    assert_eq!(interruptible(true, Some(3)), Some(Err(Interrupted {})));
    assert_eq!(interruptible(false, Some(3)), Some(Ok(3)));
    assert_eq!(interruptible(false, None), None);
    assert_eq!(Interrupted {}.message(), "interrupted");
    assert_eq!(SysError::from(Interrupted {}), SysError::Interrupted);
}

#[test]
fn states_have_three_forms() {
    for (ax, state, raw) in [
        (AxTaskState::Ready, TaskState::Ready, 0),
        (AxTaskState::Running, TaskState::Running, 1),
        (AxTaskState::Blocked, TaskState::Blocked, 2),
        (AxTaskState::Exited, TaskState::Exited, 3),
        (AxTaskState::Blocking, TaskState::Blocking, 4),
    ] {
        assert_eq!(to_vsched_state(ax), state);
        assert_eq!(from_vsched_state(state), ax);
        assert_eq!(state_to_raw(state), raw);
        assert_eq!(state_from_raw(raw), state);
    }
}

#[test]
fn alarms_come_in_the_order_of_their_deadlines() {
    let mut list = init();
    let mut state = TaskState::Running;
    set_alarm_wakeup(&mut list, &mut state, 30, 3);
    set_alarm_wakeup(&mut list, &mut state, 10, 1);
    set_alarm_wakeup(&mut list, &mut state, 20, 2);
    assert_eq!(state, TaskState::Blocking);
    assert_eq!(check_events(&mut list, 9), None);
    assert_eq!(check_events(&mut list, 25), Some((10, 1)));
    assert_eq!(check_events(&mut list, 25), Some((20, 2)));
    assert_eq!(check_events(&mut list, 25), None);
    assert_eq!(check_events(&mut list, 30), Some((30, 3)));
}

#[test]
fn a_cancelled_alarm_does_not_come() {
    let mut list = init();
    let mut state = TaskState::Running;
    set_alarm_wakeup(&mut list, &mut state, 10, 1);
    set_alarm_wakeup(&mut list, &mut state, 11, 2);
    set_alarm_wakeup(&mut list, &mut state, 12, 1);
    cancel_alarm(&mut list, 1);
    assert_eq!(check_events(&mut list, 100), Some((11, 2)));
    assert_eq!(check_events(&mut list, 100), None);
}
