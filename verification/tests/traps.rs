//! Frames, traps and their handlers, and what user space shares with the kernel.

use std::collections::BTreeMap;

use vsched::abi::process::VschedProcessId;
use vsched::abi::task::encode_task;
use vsched::sched::context::VschedContextImpl;
use vsched::sched::dispatch::TaskImpl;
use vsched::sched::registry::{
    read_frame, register_task, register_user_task, SchedTasks, TaskPlacement,
};
use vsched::sched::star::{
    find_user_vaddr_for_phys, get_handler, register_trap_handler_factory, switch_vspace,
    CoroutinePolled, StarTask, StarryUserData, TrapHandlerFactory,
};
use vsched::sched::task::{AxTask, KernelThreadStart, VschedTaskImpl, SIE};
use vsched::sched::trap::{
    clear_last_trapped_user_task, effective_user_owner, get_last_trapped_user_task,
    hand_over_stack, into_kernel_request, set_last_trapped_user_task, toggle_handler,
    vsched2_trap_entry, vsched_yield_entry, HandlerPollAction, LastTrapped, TrapAction, TrapDone,
    TrapHandlerCoroutine, VschedTrapInfoImpl,
};
use vsched::sched::trapframe::{
    UserGeneralRegs, UserTrapFrame, UserTrapFrameKind, TRAP_FRAME_SIZE,
};
use vsched::sched::userdata::{translate_user_range, AddrSpaceView, VschedUserDataImpl};
use vsched::state::{AxTaskState, TaskState};

fn regs(base: usize) -> UserGeneralRegs {
    UserGeneralRegs {
        zero: 0,
        ra: base + 1,
        sp: base + 2,
        gp: base + 3,
        tp: base + 4,
        t0: base + 5,
        t1: base + 6,
        s0: base + 8,
        a0: base + 10,
        a7: base + 17,
        s11: base + 27,
        t6: base + 31,
        ..UserGeneralRegs::default()
    }
}

fn empty_frame() -> UserTrapFrame {
    UserTrapFrame {
        regs: UserGeneralRegs::default(),
        sepc: 0,
        sstatus: 0,
        scause: 0,
        stval: 0,
        kind: UserTrapFrameKind::Trap,
    }
}

fn place(addr: usize, stack: usize) -> TaskPlacement {
    let start = KernelThreadStart { stack_top: None, kernel_gp: 0, entry: 0 };
    TaskPlacement { addr, stack, frame: 0, start }
}

fn tasks_with(owner_is_kernel: bool) -> (SchedTasks, usize, usize) {
    let mut tasks = SchedTasks::new();
    let owner = register_task(
        &mut tasks,
        place(0x1000, 0x10),
        AxTask { id: 1, state: AxTaskState::Running },
        0,
        2,
        owner_is_kernel,
        None,
        0,
    );
    let handler = VschedTrapInfoImpl::new_handler(
        &mut tasks,
        place(0x2000, 0x20),
        2,
        0x88,
    );
    (tasks, owner, handler)
}

#[test]
fn a_yielded_frame_keeps_what_a_call_preserves() {
    let live = regs(100);
    let stack = UserTrapFrame { regs: regs(500), ..empty_frame() };
    let frame = UserTrapFrame::save_yield(&live, &stack);
    assert_eq!(frame.kind, UserTrapFrameKind::Yield);
    assert_eq!(frame.regs.a0, 510);
    let resume = frame.restore_and_jump(&regs(900));
    assert_eq!(resume.pc, 101);
    assert_eq!(resume.regs.ra, 101);
    assert_eq!(resume.regs.sp, 102);
    assert_eq!(resume.regs.s11, 127);
    assert_eq!(resume.regs.a0, 910);
    assert_eq!(resume.sstatus, None);
}

#[test]
fn a_trapped_frame_keeps_every_register() {
    let live = regs(100);
    let frame = UserTrapFrame::save_trap(&live, 0x4000, 0x20, 8, 0);
    let resume = frame.restore_and_sret(&regs(900));
    assert_eq!(resume.regs, live);
    assert_eq!(resume.pc, 0x4000);
    assert_eq!(resume.sstatus, Some(0x20));
    assert_eq!(resume.satp, None);
    assert_eq!(frame.restore_and_sret_user(&regs(900)), resume);
    let switched = frame.restore_and_sret_user_with_satp(&regs(900), 0x8000);
    assert_eq!(switched.satp, Some(0x8000));
    assert_eq!(switched.regs, live);
    let jumped = frame.restore_and_jump(&regs(900));
    assert_eq!(jumped.regs, UserGeneralRegs { t0: 0x4000, ..live });
    assert_eq!(jumped.pc, 0x4000);
    assert_eq!(TRAP_FRAME_SIZE, 37 * 8);
}

#[test]
fn a_task_keeps_its_frame() {
    let (mut tasks, owner, _) = tasks_with(false);
    let frame = UserTrapFrame { scause: 0x8000000000000005, ..empty_frame() };
    let entry = vsched2_trap_entry(&mut tasks, frame, 0x9000, 0, owner);
    assert!(entry.disarm_timer);
    assert_eq!(entry.frame, 0x9000);
    assert_eq!(entry.task, owner);
    assert_eq!(tasks.objects.get(&owner).unwrap().trap_frame, 0x9000);
    assert_eq!(read_frame(&tasks, owner), Some(frame));
    let entry = vsched2_trap_entry(&mut tasks, empty_frame(), 0x9900, owner, 0);
    assert!(!entry.disarm_timer);
    assert_eq!(entry.frame, 0x9000);
    assert_eq!(tasks.objects.get(&owner).unwrap().trap_frame, 0x9000);
    assert_eq!(read_frame(&tasks, owner), Some(empty_frame()));
    let entry = vsched2_trap_entry(&mut tasks, frame, 0x9900, 0, 0);
    assert_eq!((entry.task, entry.frame), (0, 0));
    vsched_yield_entry(&mut tasks, frame, 0x77, owner, 0x10);
    assert_eq!(tasks.objects.get(&owner).unwrap().trap_frame, 0x9000);
    assert_eq!(read_frame(&tasks, owner), Some(frame));
    vsched_yield_entry(&mut tasks, empty_frame(), 0x78, 0, 0);
    assert_eq!(read_frame(&tasks, owner), Some(frame));
    assert_eq!(tasks.frames.len(), 1);
}

#[test]
fn a_task_goes_on_from_the_frame_of_its_own_trap() {
    let (mut tasks, owner, handler) = tasks_with(false);
    let live = regs(100);
    let frame = UserTrapFrame::save_trap(&live, 0x4000, 0x20, 8, 0);
    vsched2_trap_entry(&mut tasks, frame, 0x9000, owner, 0);
    for n in 0..8 {
        let other = UserTrapFrame::save_trap(&regs(1000 * n), n, n, 0xd, n);
        vsched2_trap_entry(&mut tasks, other, 0xa000, handler, 0);
        vsched_yield_entry(&mut tasks, other, 0xb000, handler, 0x500);
    }
    let info = VschedTrapInfoImpl::from_task(&tasks, owner, 3);
    assert_eq!(info, VschedTrapInfoImpl { frame, origin_cpu: 3 });
    let resume = VschedContextImpl::into_user_context(&tasks, owner).restore_and_sret(&regs(900));
    assert_eq!((resume.regs, resume.pc, resume.sstatus), (live, 0x4000, Some(0x20)));
    assert_eq!(TaskImpl { raw: owner }.restore_context(&mut tasks).frame, frame);
    assert_eq!(read_frame(&tasks, handler).unwrap().sepc, 7);
    assert_eq!(tasks.frames.len(), 2);
}

#[test]
fn a_frame_goes_with_its_task() {
    let (mut tasks, owner, handler) = tasks_with(false);
    vsched2_trap_entry(&mut tasks, empty_frame(), 0x9000, owner, 0);
    vsched2_trap_entry(&mut tasks, empty_frame(), 0xa000, handler, 0);
    let task = TaskImpl { raw: owner };
    task.set_state(&mut tasks, TaskState::Exited);
    let freed = task.dealloc(&mut tasks, None);
    assert_eq!(freed.trap_frame, 0x9000);
    assert!(!tasks.frames.contains_key(&0x9000));
    assert_eq!(read_frame(&tasks, handler), Some(empty_frame()));
}

#[test]
fn a_handler_polls_its_queue_without_interrupts() {
    let coroutine = TrapHandlerCoroutine::new(0x99, 0x40);
    assert_eq!(
        coroutine.poll(SIE),
        vec![
            HandlerPollAction::DisableIrqs,
            HandlerPollAction::Call { handler: 0x99, queue: 0x40 },
            HandlerPollAction::RestoreIrqs { state: SIE },
            HandlerPollAction::Pend,
        ]
    );
    assert_eq!(coroutine.poll(0)[2], HandlerPollAction::RestoreIrqs { state: 0 });
}

#[test]
fn the_source_of_a_trap_is_quiet_until_it_is_handled() {
    let (mut tasks, owner, handler) = tasks_with(false);
    for (scause, timer, external, software, task, take) in [
        (0x8000000000000005, true, false, false, handler, true),
        (0x8000000000000009, false, true, false, handler, true),
        (0x8000000000000001, false, false, true, owner, false),
        (0xd, false, false, false, handler, false),
    ] {
        let frame = UserTrapFrame { scause, ..empty_frame() };
        let entry = vsched2_trap_entry(&mut tasks, frame, 0x9000 + task, task, 0);
        assert_eq!(entry.disarm_timer, timer);
        assert_eq!(entry.mask_external, external);
        assert_eq!(entry.clear_software, software);
        assert_eq!(entry.take_stack, take);
    }
    hand_over_stack(&mut tasks, handler, 0x600);
    let object = tasks.objects.get(&handler).unwrap();
    assert_eq!(object.thread_stack_ptr, 0x600);
    assert!(object.resume_to_coroutine);
    assert!(!object.is_coroutine);
}

#[test]
fn a_coroutine_that_blocks_keeps_its_stack() {
    let (mut tasks, _, handler) = tasks_with(false);
    let before = *tasks.objects.get(&handler).unwrap();
    vsched_yield_entry(&mut tasks, empty_frame(), 0x70, handler, 0x500);
    assert_eq!(tasks.objects.get(&handler).unwrap().thread_stack_ptr, before.thread_stack_ptr);
    assert!(toggle_handler(&mut tasks, handler, true));
    vsched_yield_entry(&mut tasks, empty_frame(), 0x71, handler, 0x500);
    assert_eq!(tasks.objects.get(&handler).unwrap().thread_stack_ptr, 0x500);
    assert!(toggle_handler(&mut tasks, handler, false));
    assert_eq!(
        *tasks.objects.get(&handler).unwrap(),
        VschedTaskImpl { trap_frame: 0x70, ..before }
    );
}

#[test]
fn a_trap_of_a_registered_task_is_handled_for_it() {
    let (mut tasks, owner, handler) = tasks_with(false);
    let process = VschedProcessId::from_user_raw(2).unwrap();
    let key = register_user_task(&mut tasks, owner, process);
    let id = encode_task(key).unwrap();
    assert_ne!(id, owner);
    assert_eq!(effective_user_owner(&tasks, id), Some(owner));
    let info = VschedTrapInfoImpl {
        frame: UserTrapFrame { scause: 8, ..empty_frame() },
        origin_cpu: 0,
    };
    let dispatch = info.begin_handle(&mut tasks, 0x99, Some(id), handler, 0).unwrap();
    assert_eq!(dispatch.owner, Some(owner));
    assert_eq!(tasks.objects.get(&handler).unwrap().trap_owner, id);
    // A trap of the handler concerns the same user task.
    assert_eq!(effective_user_owner(&tasks, handler), Some(owner));
    vsched_yield_entry(&mut tasks, empty_frame(), 0x72, id, 0x10);
    assert_eq!(tasks.objects.get(&owner).unwrap().trap_frame, 0x72);
    assert!(!toggle_handler(&mut tasks, id, true));
}

#[test]
fn a_user_scheduler_enters_the_kernel_by_its_own_call() {
    assert_eq!(into_kernel_request(8, 0xdead, 0), Some(1));
    assert_eq!(into_kernel_request(8, 0xdead, 0x100), Some(0));
    assert_eq!(into_kernel_request(8, 93, 0), None);
    assert_eq!(into_kernel_request(13, 0xdead, 0), None);
}

#[test]
fn a_handler_runs_as_the_task_whose_trap_it_handles() {
    let (mut tasks, owner, handler) = tasks_with(false);
    let frame = UserTrapFrame { scause: 8, ..empty_frame() };
    vsched2_trap_entry(&mut tasks, frame, 0x50, owner, 0);
    let info = VschedTrapInfoImpl::from_task(&tasks, owner, 1);
    assert!(info.begin_handle(&mut tasks, 0, Some(owner), handler, 1).is_none());
    let dispatch = info.begin_handle(&mut tasks, 0x99, Some(owner), handler, 1).unwrap();
    assert_eq!(dispatch.owner, Some(owner));
    assert_eq!(dispatch.trapped, Some(owner));
    assert!(!dispatch.external_irq);
    let context = dispatch.enter.unwrap();
    assert_eq!(context.task, 1);
    assert_eq!(
        info.dispatch_actions(&dispatch),
        vec![
            TrapAction::Enter { context },
            TrapAction::EnableIrqs { state: SIE },
            TrapAction::Dispatch { task: Some(owner), frame },
            TrapAction::DisableIrqs,
        ]
    );
    let bound = tasks.objects.get(&handler).unwrap();
    assert!(bound.has_execution_task());
    assert_eq!(bound.execution_task(), 1);
    assert_eq!(bound.trap_owner, owner);
    assert_eq!(effective_user_owner(&tasks, handler), Some(owner));
    let done = info.end_handle(&mut tasks, dispatch, handler, SIE);
    assert!(!done.unmask_external);
    let leave = done.leave.unwrap();
    assert_eq!((leave.leave, leave.install), (1, 2));
    assert_eq!(done.actions(), vec![TrapAction::Leave { context: leave }]);
    assert_eq!(
        TrapDone { unmask_external: true, ..done }.actions(),
        vec![TrapAction::UnmaskExternal, TrapAction::Leave { context: leave }]
    );
    let after = tasks.objects.get(&handler).unwrap();
    assert_eq!(after.trap_owner, 0);
    assert_eq!(after.wake_generation, 2);
    assert!(!after.has_execution_task());
}

#[test]
fn an_external_interrupt_has_no_owner() {
    let (mut tasks, _, handler) = tasks_with(false);
    let info = VschedTrapInfoImpl {
        frame: UserTrapFrame { scause: 0x8000000000000009, ..empty_frame() },
        origin_cpu: 2,
    };
    let dispatch = info.begin_handle(&mut tasks, 0x99, None, handler, 2).unwrap();
    assert!(dispatch.external_irq);
    assert_eq!(dispatch.owner, None);
    assert_eq!(dispatch.enter, None);
    let done = info.end_handle(&mut tasks, dispatch, handler, SIE);
    assert!(done.unmask_external);
    assert_eq!(done.leave, None);
    assert_eq!(info.dispatch_actions(&dispatch).len(), 3);
    assert_eq!(done.actions(), vec![TrapAction::UnmaskExternal]);
}

#[test]
fn a_trap_of_the_kernel_without_an_owner_is_nobodys() {
    let (tasks, owner, _) = tasks_with(true);
    assert_eq!(effective_user_owner(&tasks, owner), None);
    assert_eq!(effective_user_owner(&tasks, 0), None);
}

#[test]
fn the_last_user_task_is_remembered_for_its_cpu() {
    let (mut tasks, owner, handler) = tasks_with(false);
    let mut last = LastTrapped { tasks: vec![0, 0] };
    set_last_trapped_user_task(&mut last, 1, 0x40);
    assert_eq!(get_last_trapped_user_task(&last, &tasks, 1, handler), 0x40);
    assert_eq!(get_last_trapped_user_task(&last, &tasks, 0, 0), 0);
    let owner_object = *tasks.objects.get(&owner).unwrap();
    let mut object = *tasks.objects.get(&handler).unwrap();
    object.bind_execution_task(owner, &owner_object);
    tasks.objects.insert(handler, object);
    assert_eq!(get_last_trapped_user_task(&last, &tasks, 1, handler), owner);
    clear_last_trapped_user_task(&mut last, 1, 0x41);
    assert_eq!(last.tasks[1], 0x40);
    clear_last_trapped_user_task(&mut last, 1, 0x40);
    assert_eq!(last.tasks[1], 0);
}

#[test]
fn a_coroutine_is_made_a_thread_and_back() {
    let (mut tasks, owner, handler) = tasks_with(false);
    assert!(toggle_handler(&mut tasks, handler, true));
    assert!(!toggle_handler(&mut tasks, handler, true));
    assert!(!tasks.objects.get(&handler).unwrap().is_coroutine);
    assert!(toggle_handler(&mut tasks, handler, false));
    assert!(!toggle_handler(&mut tasks, handler, false));
    assert!(!toggle_handler(&mut tasks, owner, true));
    assert!(!toggle_handler(&mut tasks, 0, true));
}

#[test]
fn a_coroutine_task_is_polled_under_its_identity() {
    let (mut tasks, _, handler) = tasks_with(false);
    let mut object: VschedTaskImpl = *tasks.objects.get(&handler).unwrap();
    let (_, enter) = object.begin_poll();
    assert_eq!((enter.task, enter.install_current), (2, true));
    assert_eq!(object.end_poll(Some(-3)), 2);
    assert_eq!(object.return_value, -3);
    assert_eq!(object.end_poll(None), 2);
    assert_eq!(object.return_value, -3);
    tasks.objects.insert(handler, object);
}

#[test]
fn ranges_are_translated_only_where_their_pages_follow_each_other() {
    let mut pages = BTreeMap::new();
    pages.insert(0x1000, 0x8000);
    pages.insert(0x2000, 0x9000);
    pages.insert(0x3000, 0x20000);
    assert_eq!(translate_user_range(&pages, 0x100000, 0x1ff0, 0x20), Some(0x108ff0));
    assert_eq!(translate_user_range(&pages, 0x100000, 0x2ff0, 0x20), None);
    assert_eq!(translate_user_range(&pages, 0x100000, 0x2ff0, 0x10), Some(0x109ff0));
    assert_eq!(translate_user_range(&pages, 0x100000, 0x4000, 1), None);
    assert_eq!(translate_user_range(&pages, 0x100000, 0x1000, usize::MAX - 0x1000), None);
    assert_eq!(translate_user_range(&pages, 0x100000, 0x1000, usize::MAX), None);
}

#[test]
fn the_schedulers_data_is_found_in_an_address_space() {
    let data = VschedUserDataImpl {
        vvar_start: 0x1000,
        vvar_size: 0x1000,
        vdso_start: 0x2000,
        vdso_size: 0x3000,
        phys_virt_offset: 0x100000,
    };
    let mut pages = BTreeMap::new();
    pages.insert(0x7000, 0xa000);
    let aspace = AddrSpaceView { vdso_base: 0x7000, pages };
    let explicit = Some(0xffffffc000000000usize);
    assert_eq!(data.get_user_data(0x1800, 8, None, &aspace, 0), 0x1800);
    assert_eq!(data.get_user_data(0x2010, 8, None, &aspace, 0x6000), 0x6010);
    assert_eq!(data.get_user_data(0x2010, 8, None, &aspace, 0), 0);
    assert_eq!(data.get_user_data(0x2010, 8, Some(3), &aspace, 0x6000), 0x6010);
    assert_eq!(data.get_user_data(0x2010, 8, explicit, &aspace, 0x6000), 0x10a010);
    assert_eq!(data.get_user_data(0x3010, 8, explicit, &aspace, 0x6000), 0);
    assert_eq!(data.get_user_data(0x9000, 8, None, &aspace, 0x6000), 0);
    assert_eq!(data.get_user_data(usize::MAX, 8, None, &aspace, 0x6000), 0);
}

#[test]
fn a_wrapped_task_holds_what_the_scheduler_asks_for() {
    let kernel = AxTask { id: 4, state: AxTaskState::Ready };
    let mut star = StarTask::new(kernel, Some(0x9000), 0x4000, 3, 1, None);
    assert_eq!(star.thread_stack_base(), 0x5000);
    assert_eq!(star.inner().id, 4);
    assert_eq!((star.priority(), star.pid(), star.is_coroutine()), (3, 1, false));
    star.set_pid(6);
    assert_eq!(star.pid(), 6);
    assert_eq!(star.set_state(TaskState::Running), TaskState::Ready);
    assert_eq!(star.state(), TaskState::Running);
    star.save_trap_context();
    assert_eq!(star.state(), TaskState::Blocked);
    star.save_thread_context();
    assert_eq!(star.state(), TaskState::Ready);
    star.set_return_value(9);
    assert_eq!(star.poll(CoroutinePolled::Pending), CoroutinePolled::Ready { value: 9 });
    let mut coroutine = StarTask::new(kernel, None, 0x4000, 3, 1, Some(5));
    assert_eq!(coroutine.thread_stack_base(), 0);
    assert_eq!(coroutine.poll(CoroutinePolled::Pending), CoroutinePolled::Pending);
    assert_eq!(
        coroutine.poll(CoroutinePolled::Ready { value: 2 }),
        CoroutinePolled::Ready { value: 2 }
    );
    assert_eq!(coroutine.return_value, 2);
    assert_eq!(StarTask::new(kernel, Some(5), 0x4000, 0, 0, None).thread_stack_base(), 0);
}

#[test]
fn a_registered_factory_gives_the_handler() {
    let mut factory = TrapHandlerFactory { factory: 0 };
    register_trap_handler_factory(&mut factory, 0x10);
    assert_eq!(get_handler(&factory, 0x20), 0x20);
    assert_eq!(switch_vspace(8, 5, 4), Some(5));
    assert_eq!(switch_vspace(8, 5, 5), None);
    assert_eq!(switch_vspace(0, 5, 4), None);
    assert_eq!(switch_vspace(8, 0, 4), None);
}

#[test]
fn shared_data_is_found_page_by_page() {
    let areas = vec![(0x1000usize, 0x3000usize), (0x8000, 0x9000)];
    let mut pages = BTreeMap::new();
    pages.insert(0x2000, 0x50000);
    pages.insert(0x8000, 0x51000);
    assert_eq!(find_user_vaddr_for_phys(&areas, &pages, 0x51000), Some(0x8000));
    assert_eq!(find_user_vaddr_for_phys(&areas, &pages, 0x52000), None);
    let data =
        StarryUserData { vvar_start_pa: 0x50000, vvar_size: 0x2000, phys_virt_offset: 0x100000 };
    let aspace = Some((&areas, &pages));
    assert_eq!(data.get_user_data(0x151020, 8, aspace), 0x8020);
    assert_eq!(data.get_user_data(0x151020, 8, None), 0);
    assert_eq!(data.get_user_data(0x152000, 8, aspace), 0);
    assert_eq!(data.get_user_data(0x150000, 0x2001, aspace), 0);
    assert_eq!(data.get_user_data(0x14ffff, 1, aspace), 0);
}
