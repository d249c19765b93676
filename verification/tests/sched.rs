//! Task objects, the registry, the scheduler's view of tasks, and how it is started.

use vsched::abi::process::VschedProcessId;
use vsched::abi::slot::{
    SHARED_CONTEXT_COROUTINE, SHARED_CONTEXT_THREAD, SHARED_TASK_FREE, SHARED_TASK_LIVE,
    SHARED_TASK_RUNNING,
};
use vsched::abi::task::{encode_task, UserTaskKey};
use vsched::axtask::api::{vsched2_active, AxCpuMask, ExternalHooks, SchedulerHooks};
use vsched::sched::context::{
    activate_user_aspace, get_process_vdso_base, init_raw_run_task_offset,
    page_table_root_from_raw, set_process_vdso_base, VschedContextImpl, VschedVSpaceImpl,
};
use vsched::sched::dispatch::{Deallocated, TaskImpl};
use vsched::sched::init_task::{create_vsched_init_task, init_task_frame, InitTaskParts};
use vsched::sched::kernel::{
    apply_to_hooks, clear_trapped_vsched_task, current_block_on_task,
    enable_kernel_thread_registration, enqueue_kernel_thread, exit_current_kernel_thread,
    external_spawn_kernel_thread, init_vsched2_interfaces, prepare_vsched2, record_init_task,
    register_kernel_thread, reject_external_task_affinity, set_external_task_priority,
    set_trapped_vsched_task, set_vsched_task_exited, spawn_kernel_thread,
    transition_block_on_task, trapped_vsched_task, vsched2_bootstrap, wake_blocked_task,
    BootstrapAction, HookAddresses, KernelState, PendingKernelThread, SpawnAction, WakeOutcome,
};
use vsched::sched::registry::{
    can_register, direct_task, read_frame, register_task, register_user_task, take_user_task,
    task_for_user_key,
    task_from_raw, unregister_user_task, with_vsched_task, SchedTasks, TaskPlacement,
};
use vsched::sched::smp::VschedSmpImpl;
use vsched::sched::stack::{alloc_stack, stack_allocation_layout, StackLayout, VSI_MAGIC};
use vsched::sched::task::{
    initial_kernel_thread_frame, AxTask, Coroutine, EnterContext, IrqCorotineWrapper,
    KernelThreadStart, RestoreContext, VschedTaskImpl, KERNEL_THREAD_SSTATUS, SIE,
};
use vsched::sched::trapframe::{UserGeneralRegs, UserTrapFrame, UserTrapFrameKind};
use vsched::state::{AxTaskState, TaskState};
use vsched::syscall::context::UserContext;
use vsched::vdso::placement::VdsoPlacement;

fn ax(id: u64, state: AxTaskState) -> AxTask {
    AxTask { id, state }
}

fn place(addr: usize) -> TaskPlacement {
    let start = KernelThreadStart { stack_top: Some(addr + 0x80), kernel_gp: 0x55, entry: 0x99 };
    TaskPlacement { addr, stack: addr + 0x100, frame: addr + 0x200, start }
}

fn process(raw: usize) -> VschedProcessId {
    VschedProcessId::from_user_raw(raw).unwrap()
}

fn with_user_task() -> (SchedTasks, usize, UserTaskKey) {
    let mut tasks = SchedTasks::new();
    let addr = register_task(
        &mut tasks,
        place(0x1000),
        ax(5, AxTaskState::Ready),
        3,
        2,
        false,
        None,
        0x7000,
    );
    let key = register_user_task(&mut tasks, addr, process(2));
    (tasks, addr, key)
}

#[test]
fn a_registered_task_is_found_by_its_id() {
    let (tasks, addr, key) = with_user_task();
    let id = encode_task(key).unwrap();
    assert_eq!(direct_task(&tasks, id), Some(addr));
    assert_eq!(direct_task(&tasks, addr), Some(addr));
    assert_eq!(direct_task(&tasks, 0), None);
    assert_eq!(task_from_raw(&tasks, id), Some(ax(5, AxTaskState::Ready)));
    assert_eq!(task_for_user_key(&tasks, key), Some(ax(5, AxTaskState::Ready)));
    assert_eq!(with_vsched_task(&tasks, id).unwrap().task_id(), Some(id));
    assert_eq!(tasks.table.priority(key), Some(3));
    assert_eq!(tasks.table.context_kind(key), Some(SHARED_CONTEXT_THREAD));
    let stale = UserTaskKey::new(key.slot(), key.generation() + 1);
    assert_eq!(task_for_user_key(&tasks, stale), None);
}

#[test]
fn an_unregistered_task_is_not_found_any_more() {
    let (mut tasks, addr, key) = with_user_task();
    let id = encode_task(key).unwrap();
    unregister_user_task(&mut tasks, addr);
    assert_eq!(direct_task(&tasks, id), None);
    assert_eq!(direct_task(&tasks, addr), Some(addr));
    assert!(!tasks.table.is_live(key));
    let next = register_user_task(&mut tasks, addr, process(2));
    assert_eq!(next.slot(), key.slot());
    assert_ne!(encode_task(next), Some(id));
    assert_eq!(direct_task(&tasks, id), None);
}

#[test]
fn what_user_space_writes_changes_no_identity() {
    let (mut tasks, addr, key) = with_user_task();
    let id = encode_task(key).unwrap();
    let slot = &mut tasks.table.slots[key.slot()];
    slot.process_id = 0;
    slot.task_state = usize::MAX;
    slot.context_kind = 77;
    slot.context_owner = 5;
    slot.queue_owner = 6;
    slot.stack_base = 7;
    slot.stack_size = 8;
    slot.context = 9;
    slot.wake_cpu = 10;
    assert_eq!(direct_task(&tasks, id), Some(addr));
    assert_eq!(task_for_user_key(&tasks, key), Some(ax(5, AxTaskState::Ready)));
    assert_eq!(with_vsched_task(&tasks, id).unwrap().task_id(), Some(id));
    tasks.table.slots[key.slot()].generation += 1;
    assert_eq!(direct_task(&tasks, id), None);
    assert_eq!(task_for_user_key(&tasks, key), None);
}

#[test]
fn a_task_is_registered_under_a_new_handle_only() {
    let (mut tasks, _, key) = with_user_task();
    assert!(can_register(&tasks));
    let slot = &mut tasks.table.slots[key.slot()];
    slot.state = SHARED_TASK_FREE;
    slot.generation = key.generation() - 1;
    assert!(!can_register(&tasks));
    let mut tasks = SchedTasks::new();
    for slot in &mut tasks.table.slots {
        slot.state = SHARED_TASK_LIVE;
    }
    assert!(!can_register(&tasks));
}

#[test]
fn a_handle_is_taken_once() {
    let (mut tasks, addr, key) = with_user_task();
    assert_eq!(take_user_task(&mut tasks, key), Some(addr));
    assert_eq!(take_user_task(&mut tasks, key), None);
    unregister_user_task(&mut tasks, addr);
    unregister_user_task(&mut tasks, 0);
}

#[test]
fn the_scheduler_sees_what_the_slot_holds() {
    let (mut tasks, addr, key) = with_user_task();
    let task = TaskImpl { raw: encode_task(key).unwrap() };
    assert_eq!(task.state(&tasks), TaskState::Ready);
    assert_eq!(task.set_state(&mut tasks, TaskState::Running), TaskState::Ready);
    assert_eq!(tasks.table.task_state(key), Some(SHARED_TASK_RUNNING));
    assert_eq!(tasks.objects.get(&addr).unwrap().task.state, AxTaskState::Running);
    let before = task.match_set_state(
        &mut tasks,
        TaskState::Ready,
        TaskState::Blocking,
        TaskState::Blocked,
        TaskState::Exited,
        TaskState::Blocking,
    );
    assert_eq!(before, TaskState::Running);
    assert_eq!(task.state(&tasks), TaskState::Blocking);
    assert_eq!(task.priority(&tasks), 3);
    assert!(!task.is_coroutine(&tasks));
    assert!(!task.is_kernel(&tasks));
    assert_eq!(task.pid(&tasks), 2);
    task.set_pid(&mut tasks, 9);
    assert_eq!(task.pid(&tasks), 9);
    assert_eq!(tasks.table.process_id(key), Some(process(9)));
    assert_eq!(task.thread_stack(&tasks), 0x1100);
    task.set_return_value(&mut tasks, -4);
    assert_eq!(tasks.objects.get(&addr).unwrap().return_value, -4);
}

#[test]
fn an_exited_task_is_freed_with_its_handle() {
    let (mut tasks, addr, key) = with_user_task();
    let task = TaskImpl { raw: encode_task(key).unwrap() };
    task.set_state(&mut tasks, TaskState::Exited);
    let freed = task.dealloc(&mut tasks, Some(2));
    assert_eq!(
        freed,
        Deallocated { trap_frame: 0, thread_stack: 0x1100, process_drop: Some(2) }
    );
    assert!(tasks.objects.get(&addr).is_none());
    assert!(!tasks.table.is_live(key));
    assert_eq!(direct_task(&tasks, task.raw), None);
}

#[test]
fn a_kernel_thread_starts_from_its_frame() {
    let mut tasks = SchedTasks::new();
    let thread = PendingKernelThread { task: ax(1, AxTaskState::Ready), priority: 1 };
    let addr = register_kernel_thread(&mut tasks, place(0x2000), thread);
    let object = tasks.objects.get(&addr).unwrap();
    assert!(object.is_kernel);
    assert_eq!(object.trap_frame, 0x2200);
    assert_eq!(read_frame(&tasks, addr), initial_kernel_thread_frame(Some(0x2080), 0x55, 0x99));
    assert_eq!(object.thread_stack_ptr, 0x2100);
    assert_eq!(object.wake_generation, 1);

    let frame = initial_kernel_thread_frame(Some(0x8000), 0x55, 0x99).unwrap();
    assert_eq!(frame.regs.sp, 0x8000);
    assert_eq!(frame.regs.gp, 0x55);
    assert_eq!(frame.sepc, 0x99);
    assert_eq!(frame.sstatus, KERNEL_THREAD_SSTATUS);
    assert_eq!(frame.sstatus, 1 << 8);
    assert_eq!(frame.kind, UserTrapFrameKind::Trap);
    assert_eq!(initial_kernel_thread_frame(None, 0, 0), None);

    let start = KernelThreadStart { stack_top: None, kernel_gp: 0, entry: 0 };
    let other = TaskPlacement { start, ..place(0x3000) };
    let without = register_kernel_thread(&mut tasks, other, thread);
    assert_eq!(tasks.objects.get(&without).unwrap().trap_frame, 0);
    assert_eq!(read_frame(&tasks, without), None);
    assert_eq!(tasks.frames.len(), 1);

    let ended = exit_current_kernel_thread(&mut tasks, addr);
    assert_eq!(ended.id, 1);
    assert_eq!(tasks.objects.get(&addr).unwrap().wake_generation, 2);
}

#[test]
fn kernel_coroutines_keep_their_interrupt_state() {
    let mut tasks = SchedTasks::new();
    let addr = register_task(
        &mut tasks,
        place(0x3000),
        ax(2, AxTaskState::Ready),
        0,
        0,
        true,
        Some(0x77),
        0,
    );
    let object = tasks.objects.get(&addr).unwrap();
    assert_eq!(
        object.coroutine,
        Some(Coroutine::Irq { wrapper: IrqCorotineWrapper { inner: 0x77, irq_state: SIE } })
    );
    assert_eq!(object.thread_stack_ptr, 0);
    let mut wrapper = IrqCorotineWrapper::new(0x77);
    assert_eq!(wrapper.begin_poll(false), 2);
    wrapper.end_poll(0);
    assert_eq!(wrapper.begin_poll(false), 0);
}

#[test]
fn an_interrupted_coroutine_is_one_again_when_it_goes_on() {
    let (mut tasks, _, _) = with_user_task();
    let mut task = VschedTaskImpl::new(
        ax(9, AxTaskState::Running),
        0,
        0,
        true,
        Some(Coroutine::Plain { inner: 1 }),
    );
    task.trap_frame = 0x500;
    assert!(task.takes_current_stack());
    assert!(task.prepare_interrupted_kernel_context(&mut tasks.table, 0x600));
    assert!(!task.is_coroutine);
    assert_eq!(task.thread_stack(), 0x600);
    assert!(!task.takes_current_stack());
    let frame = init_task_frame(&UserContext::new(0x4000, 0x9000, 7, 0x20));
    tasks.frames.insert(0x500, frame);
    let restore = task.restore_context(&mut tasks.table, &tasks.frames);
    assert_eq!(
        restore,
        RestoreContext {
            enter: EnterContext { task: 9, install_current: true },
            frame,
            sret: true,
        }
    );
    assert!(task.is_coroutine);
    assert_eq!(task.thread_stack(), 0);
}

#[test]
fn a_waiting_scheduler_gives_its_stack_up_every_time() {
    let (mut tasks, _, _) = with_user_task();
    let mut task = VschedTaskImpl::new(
        ax(9, AxTaskState::Running),
        0,
        0,
        true,
        Some(Coroutine::Plain { inner: 1 }),
    );
    task.mark_scheduler_wait_context();
    assert!(task.prepare_interrupted_kernel_context(&mut tasks.table, 0x600));
    assert!(task.prepare_interrupted_kernel_context(&mut tasks.table, 0x700));
    assert!(task.is_coroutine);
    assert_eq!(task.thread_stack(), 0x700);
}

#[test]
fn a_thread_keeps_the_stack_that_it_yields_on() {
    let mut task = VschedTaskImpl::new(ax(9, AxTaskState::Running), 0, 0, true, None);
    task.detach_thread_stack_for_resched(0x800);
    assert_eq!(task.thread_stack(), 0x800);
}

#[test]
fn the_form_of_a_context_is_written_to_the_slot() {
    let (mut tasks, addr, key) = with_user_task();
    let mut object = *tasks.objects.get(&addr).unwrap();
    object.set_coroutine(&mut tasks.table, true);
    assert_eq!(tasks.table.context_kind(key), Some(SHARED_CONTEXT_COROUTINE));
    assert!(object.is_coroutine(&tasks.table));
}

#[test]
fn threads_wait_for_the_scheduler_in_order() {
    let mut state = KernelState::new(2);
    assert_eq!(
        spawn_kernel_thread(&mut state, ax(1, AxTaskState::Ready), 4),
        SpawnAction::SpawnRaw
    );
    let mut hooks = SchedulerHooks::new();
    let external = ExternalHooks { spawn: 1, exit: 2, priority: 3, affinity: 4 };
    prepare_vsched2(&mut state, &mut hooks, external);
    assert!(state.prepared);
    assert_eq!(hooks.external, external);
    prepare_vsched2(&mut state, &mut hooks, ExternalHooks { spawn: 9, ..external });
    assert_eq!(hooks.external, external);
    assert_eq!(spawn_kernel_thread(&mut state, ax(1, AxTaskState::Ready), 4), SpawnAction::Wait);
    assert_eq!(external_spawn_kernel_thread(&mut state, ax(2, AxTaskState::Ready)), None);
    let waiting = enable_kernel_thread_registration(&mut state);
    assert_eq!(waiting.len(), 2);
    assert_eq!((waiting[0].task.id, waiting[0].priority), (1, 4));
    assert_eq!((waiting[1].task.id, waiting[1].priority), (2, 1));
    let now = enqueue_kernel_thread(&mut state, ax(3, AxTaskState::Ready), 5).unwrap();
    assert_eq!(now.task.id, 3);
    assert!(state.pending.is_empty());
}

#[test]
fn interfaces_are_given_once() {
    let mut state = KernelState::new(1);
    let placement =
        VdsoPlacement { vdso_start_pa: 1, vdso_size: 2, vvar_start_pa: 3, vvar_size: 4 };
    assert_eq!(state.placement, VdsoPlacement::new());
    assert!(init_vsched2_interfaces(&mut state, placement));
    assert!(!init_vsched2_interfaces(&mut state, VdsoPlacement::new()));
    assert_eq!(state.placement, placement);
}

#[test]
fn priorities_have_bounds() {
    let mut tasks = SchedTasks::new();
    let thread = PendingKernelThread { task: ax(1, AxTaskState::Ready), priority: 1 };
    let addr = register_kernel_thread(&mut tasks, place(0x2000), thread);
    assert!(set_external_task_priority(&mut tasks, addr, 15));
    assert!(!set_external_task_priority(&mut tasks, addr, 16));
    assert!(!set_external_task_priority(&mut tasks, addr, -1));
    assert!(!set_external_task_priority(&mut tasks, 0, 1));
    assert_eq!(tasks.objects.get(&addr).unwrap().priority, 15);
    let (mut tasks, addr, _) = with_user_task();
    assert!(!set_external_task_priority(&mut tasks, addr, 1));
    assert!(!reject_external_task_affinity(&AxCpuMask { words: [1; 8] }));
}

#[test]
fn a_user_task_is_woken_by_its_id() {
    let (mut tasks, addr, key) = with_user_task();
    let id = encode_task(key).unwrap();
    assert_eq!(current_block_on_task(&tasks, id), (id, 1));
    TaskImpl { raw: id }.set_state(&mut tasks, TaskState::Blocked);
    assert_eq!(wake_blocked_task(&mut tasks, id, 1), WakeOutcome { woken: true, push: true });
    assert_eq!(tasks.objects.get(&addr).unwrap().task.state, AxTaskState::Ready);
    let mut state = KernelState::new(1);
    assert_eq!(trapped_vsched_task(&state, &tasks, 0, id), 0);
    record_init_task(&mut state, addr);
    assert!(set_vsched_task_exited(&mut state, &mut tasks, id));
    unregister_user_task(&mut tasks, addr);
    assert_eq!(current_block_on_task(&tasks, id), (0, 0));
    assert_eq!(wake_blocked_task(&mut tasks, id, 2), WakeOutcome { woken: false, push: false });
}

#[test]
fn a_wake_of_an_old_generation_does_nothing() {
    let mut tasks = SchedTasks::new();
    let thread = PendingKernelThread { task: ax(1, AxTaskState::Running), priority: 1 };
    let addr = register_kernel_thread(&mut tasks, place(0x2000), thread);
    assert_eq!(current_block_on_task(&tasks, addr), (addr, 1));
    assert_eq!(current_block_on_task(&tasks, 0), (0, 0));
    assert!(transition_block_on_task(&mut tasks, addr, true));
    assert_eq!(tasks.objects.get(&addr).unwrap().task.state, AxTaskState::Blocking);
    assert!(transition_block_on_task(&mut tasks, addr, false));
    assert_eq!(tasks.objects.get(&addr).unwrap().task.state, AxTaskState::Running);
    assert!(transition_block_on_task(&mut tasks, addr, true));
    TaskImpl { raw: addr }.set_state(&mut tasks, TaskState::Blocked);
    assert_eq!(
        wake_blocked_task(&mut tasks, addr, 0),
        WakeOutcome { woken: false, push: false }
    );
    assert_eq!(wake_blocked_task(&mut tasks, addr, 1), WakeOutcome { woken: true, push: true });
    assert_eq!(wake_blocked_task(&mut tasks, addr, 1), WakeOutcome { woken: true, push: false });
    assert_eq!(tasks.objects.get(&addr).unwrap().task.state, AxTaskState::Ready);
    assert_eq!(wake_blocked_task(&mut tasks, 0, 1), WakeOutcome { woken: false, push: false });
}

#[test]
fn the_system_ends_with_its_first_task() {
    let (mut tasks, addr, _) = with_user_task();
    let mut state = KernelState::new(2);
    set_trapped_vsched_task(&mut state, 1, addr);
    assert_eq!(trapped_vsched_task(&state, &tasks, 1, 0), addr);
    clear_trapped_vsched_task(&mut state, 1, 0x99);
    assert_eq!(trapped_vsched_task(&state, &tasks, 1, 0), addr);
    clear_trapped_vsched_task(&mut state, 1, addr);
    assert_eq!(trapped_vsched_task(&state, &tasks, 1, 0), 0);
    assert!(!set_vsched_task_exited(&mut state, &mut tasks, addr));
    record_init_task(&mut state, addr);
    assert!(set_vsched_task_exited(&mut state, &mut tasks, addr));
    assert_eq!(tasks.objects.get(&addr).unwrap().task.state, AxTaskState::Exited);
    assert_eq!(tasks.objects.get(&addr).unwrap().wake_generation, 3);
}

#[test]
fn the_scheduler_is_active_once_everything_is_registered() {
    let actions = vsched2_bootstrap(Some(8), Some(16), 0x1000, 0x2000);
    assert_eq!(actions[0], BootstrapAction::DisableIrqs);
    assert_eq!(*actions.last().unwrap(), BootstrapAction::EnterScheduler);
    let switched = actions
        .iter()
        .position(|a| *a == BootstrapAction::SwitchPageTable { root: 0x1000 })
        .unwrap();
    let restored = actions
        .iter()
        .position(|a| *a == BootstrapAction::RestorePageTable { root: 0x2000 })
        .unwrap();
    let pushed =
        actions.iter().position(|a| *a == BootstrapAction::PushInitTask { task: 8 }).unwrap();
    assert!(switched < pushed && pushed < restored);
    assert_eq!(actions[pushed - 1], BootstrapAction::RegisterInitTask { task: 8 });
    assert_eq!(actions[pushed - 2], BootstrapAction::BindInitProcess { task: 8 });

    let addresses =
        HookAddresses { toggle: 1, current: 2, wake: 3, state: 4, yield_fn: 5 };
    let mut hooks = SchedulerHooks::new();
    for action in actions {
        apply_to_hooks(&mut hooks, action, addresses);
        if vsched2_active(&hooks) {
            assert_eq!(hooks.block_on_toggle, 1);
            assert_eq!(hooks.block_on_current, 2);
            assert_eq!(hooks.block_on_wake, 3);
            assert_eq!(hooks.block_on_state, 4);
        }
    }
    assert_eq!(hooks.vsched2_yield, 5);
}

#[test]
fn a_system_without_a_user_task_starts_too() {
    let actions = vsched2_bootstrap(None, None, 0, 0x2000);
    assert!(actions.iter().all(|a| !matches!(a, BootstrapAction::PushInitTask { .. })));
    assert!(actions.iter().all(|a| !matches!(a, BootstrapAction::SwitchPageTable { .. })));
}

#[test]
fn the_first_task_starts_at_its_entry() {
    let context = UserContext::new(0x4000, 0x9000, 7, 0x20);
    let frame = init_task_frame(&context);
    assert_eq!(
        frame,
        UserTrapFrame {
            regs: UserGeneralRegs { sp: 0x9000, a0: 7, ..UserGeneralRegs::default() },
            sepc: 0x4000,
            sstatus: 0x20,
            scause: 0,
            stval: 0,
            kind: UserTrapFrameKind::Yield,
        }
    );
    let mut tasks = SchedTasks::new();
    let parts = InitTaskParts {
        stack: 0x10,
        frame: 0x20,
        context,
        user_root: 0x30,
        aspace: 0x40,
        vdso_base: 0x50,
    };
    let addr =
        create_vsched_init_task(&mut tasks, place(0x1000), ax(1, AxTaskState::Ready), parts);
    let object = tasks.objects.get(&addr).unwrap();
    assert_eq!(object.thread_stack_ptr, 0x10);
    assert_eq!(object.trap_frame, 0x20);
    assert_eq!(read_frame(&tasks, addr), Some(frame));
    assert_eq!(VschedContextImpl::into_user_context(&tasks, addr), frame);
    assert_eq!(object.user_page_table_root, 0x30);
    assert_eq!(object.user_aspace_ptr, 0x40);
    assert_eq!(object.user_vdso_base, 0x50);
    assert_eq!((object.pid, object.priority, object.is_kernel), (1, 0, false));
}

#[test]
fn stacks_begin_behind_their_headers() {
    assert_eq!(
        stack_allocation_layout(0x4000),
        StackLayout { size: 0x4010, align: 16, stack_offset: 16 }
    );
    let header = alloc_stack(0x10000, 0x4000);
    assert_eq!(header.base(), 0x14010);
    assert_eq!(header.magic, VSI_MAGIC);
}

#[test]
fn page_tables_are_loaded_when_they_change() {
    assert!(activate_user_aspace(1, 2));
    assert!(!activate_user_aspace(2, 2));
    assert_eq!(page_table_root_from_raw(0, 5), None);
    assert_eq!(page_table_root_from_raw(8, 0), None);
    assert_eq!(page_table_root_from_raw(8, 5), Some(5));
    assert_eq!(VschedVSpaceImpl::into_vspace(8, 5, 4), Some(5));
    assert_eq!(VschedVSpaceImpl::into_vspace(8, 5, 5), None);
    assert_eq!(VschedVSpaceImpl::into_vspace(0, 5, 4), None);
}

#[test]
fn coroutines_enter_user_space_at_the_function_that_runs_them() {
    let (tasks, addr, _) = with_user_task();
    let mut context = VschedContextImpl::new();
    init_raw_run_task_offset(&mut context, 0x90_98e, 0x90_000);
    assert_eq!(context.into_user(&tasks, addr), 0x7000 + 0x98e);
    set_process_vdso_base(&mut context, 0x55);
    assert_eq!(get_process_vdso_base(&context), 0x55);
}

#[test]
fn cpus_are_named_by_their_numbers() {
    let smp = VschedSmpImpl { cpu_num: 4 };
    assert_eq!(smp.cpu_id(3), 3);
    assert_eq!(smp.send_ipi(2, 3), 2);
}
