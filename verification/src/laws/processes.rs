//! Executors, alarms, messages, and tasks as user space has them.

use vstd::prelude::*;

use crate::abi::table::SharedTaskTable;
use crate::asynctask::current::CurrentTask;
use crate::asynctask::timers::{
    alarms, cancel_alarm, check_events, init as init_alarms, set_alarm_wakeup, AlarmList,
};
use crate::axtask::api::{CurrentSlot, TaskRef};
use crate::executor::api::{
    current_executor, current_task, current_task_may_uninit, init, init_secondary, init_user,
    load_user_actions, start_user_actions, user_page_table, Executors, InitUserAction,
    LoadedProgram, PageTableWork,
};
use crate::executor::current::{CurrentExecutor, ExecutorSlot};
use crate::executor::process::{Executor, ExecutorRef};
use crate::laws::order::{
    in_order, in_order_within, lemma_in_one, lemma_in_parts, lemma_in_two, lemma_order_of_parts,
};
use crate::state::{AxTaskState, TaskState};
use crate::user::{current_task as current_user_task, task as user_task, UserTask};
use crate::vipc::{IpcEntity, IpcError, VqueueCall};

verus! {

/// A new process has what it was given, runs, and has no children and no tasks; the kernel's is
/// its own parent.
pub proof fn law_new_process_has_what_it_was_given(
    pid: usize,
    parent: usize,
    aspace: Option<usize>,
    path: String,
    args: Vec<String>,
    heap: usize,
    made: Executor,
    kernel: Executor,
)
    requires
        call_ensures(Executor::new, (pid, parent, aspace, path, args, heap), made),
        call_ensures(Executor::new_init, (heap,), kernel),
    ensures
        made.pid == pid,
        made.parent == parent,
        made.aspace == aspace,
        made.exe_path@ == path@,
        made.cmdline@ == args@,
        made.heap_top == heap,
        !made.is_zombie,
        made.exit_code == 0,
        made.children@.len() == 0,
        made.tasks@.len() == 0,
        made.main_task is None,
        kernel.pid == kernel.parent,
        kernel.pid == 1,
        kernel.aspace is None,
        kernel.heap_top == heap,
{
}

/// What a process is told, it says.
pub proof fn law_process_says_what_it_was_told(
    parent: &mut Executor,
    code: &mut Executor,
    zombie: &mut Executor,
    heap: &mut Executor,
    number: usize,
    exit: isize,
    status: bool,
    parent_read: usize,
    code_read: isize,
    zombie_read: bool,
    heap_read: usize,
    before: Option<isize>,
    after: Option<isize>,
)
    requires
        call_ensures(Executor::set_parent_pid, (parent, number), ()),
        call_ensures(Executor::get_parent_pid, (&*final(parent),), parent_read),
        call_ensures(Executor::set_exit_code, (code, exit), ()),
        call_ensures(Executor::get_exit_code, (&*final(code),), code_read),
        call_ensures(Executor::set_zombie, (zombie, status), ()),
        call_ensures(Executor::get_zombie, (&*final(zombie),), zombie_read),
        call_ensures(Executor::set_heap_top, (heap, number), ()),
        call_ensures(Executor::get_heap_top, (&*final(heap),), heap_read),
        call_ensures(Executor::get_code_if_exit, (&*final(code),), before),
        call_ensures(Executor::get_code_if_exit, (&*final(zombie),), after),
    ensures
        parent_read == number,
        code_read == exit,
        zombie_read == status,
        heap_read == number,
        final(parent).pid == old(parent).pid,
        final(code).is_zombie == old(code).is_zombie,
        final(zombie).exit_code == old(zombie).exit_code,
        before is Some <==> old(code).is_zombie,
        before matches Some(c) ==> c == exit,
        after is Some <==> status,
        after matches Some(c) ==> c == old(zombie).exit_code,
{
}

/// The main task of a process is the one that was set, until it exits.
pub proof fn law_main_task_is_the_one_set(
    set: &mut Executor,
    ended: &mut Executor,
    task: TaskRef,
    read: Option<TaskRef>,
    taken: Option<TaskRef>,
    gone: Option<TaskRef>,
)
    requires
        call_ensures(Executor::set_main_task, (set, task), ()),
        call_ensures(Executor::get_main_task, (&*final(set),), read),
        call_ensures(Executor::exit_main_task, (ended,), taken),
        call_ensures(Executor::get_main_task, (&*final(ended),), gone),
    ensures
        read == Some(task),
        taken == old(ended).main_task,
        gone is None,
        final(ended).tasks@ == old(ended).tasks@,
        final(set).tasks@ == old(set).tasks@,
{
}

/// The first process is a child of the kernel's, has one task, which is its main task, and is
/// found by its ID, as the kernel's is; no other process changes.
pub proof fn law_first_process_is_the_kernels_child(
    executors: &mut Executors,
    addr: usize,
    program: LoadedProgram,
    heap: usize,
    task: TaskRef,
    found: ExecutorRef,
    kernel: ExecutorRef,
    other: usize,
)
    requires
        call_ensures(init_user, (executors, addr, program, heap), task),
        old(executors).kernel is Some,
        old(executors).kernel != Some(addr),
        program.pid != 1,
        call_ensures(current_executor, (&*final(executors), program.pid), found),
        call_ensures(current_executor, (&*final(executors), 1usize), kernel),
        other != addr,
        Some(other) != old(executors).kernel,
        old(executors).objects@.contains_key(other),
    ensures
        ({
            let made = final(executors).objects@[addr];
            let parent = old(executors).kernel.unwrap();
            &&& task.addr == program.task
            &&& found.addr == addr
            &&& kernel.addr == parent
            &&& made.pid == program.pid
            &&& made.parent == 1
            &&& made.aspace == Some(program.aspace)
            &&& made.exe_path@ == program.path@
            &&& made.cmdline@ == program.args@
            &&& made.heap_top == heap
            &&& !made.is_zombie
            &&& made.tasks@ == seq![task]
            &&& made.main_task == Some(task)
            &&& made.children@.len() == 0
            &&& final(executors).objects@[parent].children@ == old(executors).objects@[parent].children@.push(ExecutorRef { addr })
            &&& made.exit_code == 0
            &&& final(executors).objects@[parent] == (Executor {
                children: final(executors).objects@[parent].children,
                ..old(executors).objects@[parent]
            })
        }),
        forall|p: usize|
            p != program.pid && p != 1 ==> #[trigger] final(executors).table@.contains_key(p)
                == old(executors).table@.contains_key(p) && (old(executors).table@.contains_key(p)
                ==> final(executors).table@[p] == old(executors).table@[p]),
        forall|a: usize|
            a != addr ==> #[trigger] final(executors).objects@.contains_key(a) == old(executors).objects@.contains_key(a),
        final(executors).objects@[other] == old(executors).objects@[other],
        final(executors).kernel == old(executors).kernel,
{
}

/// The kernel's executor is that of the first CPU once it is made, and that of every other.
pub proof fn law_kernel_executor_is_that_of_every_cpu(
    executors: &mut Executors,
    slot: &mut ExecutorSlot,
    second: &mut ExecutorSlot,
    addr: usize,
    heap: usize,
)
    requires
        call_ensures(init, (executors, slot, addr, heap), ()),
        call_ensures(init_secondary, (&*final(executors), second), ()),
    ensures
        final(executors).kernel == Some(addr),
        final(slot).ptr == addr,
        final(second).ptr == addr,
        final(executors).objects@[addr].pid == 1,
        final(executors).objects@[addr].heap_top == heap,
        final(executors).objects@.contains_key(addr),
        final(executors).table@ == old(executors).table@,
        forall|a: usize|
            a != addr ==> #[trigger] final(executors).objects@.contains_key(a) == old(executors).objects@.contains_key(a) && (old(executors).objects@.contains_key(a) ==> final(executors).objects@[a] == old(executors).objects@[a]),
{
    assert forall|a: usize| a != addr implies #[trigger] final(executors).objects@.contains_key(a)
        == old(executors).objects@.contains_key(a) && (old(executors).objects@.contains_key(a)
        ==> final(executors).objects@[a] == old(executors).objects@[a]) by {
        assert(final(executors).objects@.remove(addr).contains_key(a) == old(executors).objects@.contains_key(a));
        assert(old(executors).objects@.contains_key(a) ==> final(executors).objects@.remove(addr)[a]
            == old(executors).objects@[a]);
    }
}

/// A system begins without executors.
pub proof fn law_there_are_no_executors_at_first(executors: Executors, addr: usize)
    requires
        call_ensures(Executors::new, (), executors),
    ensures
        executors.kernel is None,
        !executors.objects@.contains_key(addr),
        !executors.table@.contains_key(addr),
{
}

/// The order in which the first process is made.
pub open spec fn init_rank(action: InitUserAction) -> int {
    match action {
        InitUserAction::DisableIrqs => 0,
        InitUserAction::SwitchPageTable { .. } => 1,
        InitUserAction::AllowAccess => 2,
        InitUserAction::Load => 3,
        InitUserAction::EnableIrqs => 4,
        InitUserAction::AddStdio { .. } => 5,
        InitUserAction::MakeTask { .. } => 6,
        InitUserAction::AddTask { .. } => 7,
        InitUserAction::SetLeader { .. } => 8,
        InitUserAction::EnterTable => 9,
    }
}

/// A program is loaded without interrupts, with its page table in use and open to the kernel
/// exactly if it has one; then its task is made with what was loaded, given to the scheduler
/// and made the leader.
pub proof fn law_first_program_is_loaded_and_started(
    root: usize,
    current: usize,
    program: LoadedProgram,
    work: PageTableWork,
    loading: Vec<InitUserAction>,
    starting: Vec<InitUserAction>,
    action: InitUserAction,
)
    requires
        call_ensures(user_page_table, (root, current), work),
        call_ensures(load_user_actions, (root, current), loading),
        call_ensures(start_user_actions, (&program,), starting),
    ensures
        work.switch <==> root != 0 && root != current,
        work.allow_access <==> root != 0,
        in_order(loading@ + starting@, |a: InitUserAction| init_rank(a)),
        loading@.contains(action) <==> match action {
            InitUserAction::DisableIrqs | InitUserAction::Load | InitUserAction::EnableIrqs => true,
            InitUserAction::SwitchPageTable { root: r } => r == root && root != 0 && root
                != current,
            InitUserAction::AllowAccess => root != 0,
            _ => false,
        },
        starting@.contains(action) <==> match action {
            InitUserAction::AddStdio { pid } => pid == program.pid,
            InitUserAction::MakeTask { task, pid, root: r, entry, stack } => task == program.task
                && pid == program.pid && r == program.root && entry == program.entry && stack
                == program.stack,
            InitUserAction::AddTask { task } => task == program.task,
            InitUserAction::SetLeader { task } => task == program.task,
            InitUserAction::EnterTable => true,
            _ => false,
        },
{
    let rank = |a: InitUserAction| init_rank(a);
    let first = seq![InitUserAction::DisableIrqs];
    let switch = if root != 0 && root != current {
        seq![InitUserAction::SwitchPageTable { root }]
    } else {
        Seq::<InitUserAction>::empty()
    };
    let allow = if root != 0 {
        seq![InitUserAction::AllowAccess]
    } else {
        Seq::<InitUserAction>::empty()
    };
    let load = seq![InitUserAction::Load, InitUserAction::EnableIrqs];
    assert(loading@ == first + switch + allow + load);
    lemma_in_parts(first + switch + allow, load, action);
    lemma_in_parts(first + switch, allow, action);
    lemma_in_parts(first, switch, action);
    lemma_in_one(InitUserAction::DisableIrqs, action);
    lemma_in_one(InitUserAction::SwitchPageTable { root }, action);
    lemma_in_one(InitUserAction::AllowAccess, action);
    lemma_in_two(InitUserAction::Load, InitUserAction::EnableIrqs, action);
    assert(in_order_within(first, rank, 0, 1));
    assert(in_order_within(switch, rank, 1, 2));
    assert(in_order_within(allow, rank, 2, 3));
    assert(in_order_within(load, rank, 3, 5));
    lemma_order_of_parts(first, switch, rank, 0, 1, 2);
    lemma_order_of_parts(first + switch, allow, rank, 0, 2, 3);
    lemma_order_of_parts(first + switch + allow, load, rank, 0, 3, 5);
    let s = starting@;
    assert(s.len() == 5);
    assert(s[0] == (InitUserAction::AddStdio { pid: program.pid }) && s[1]
        == (InitUserAction::MakeTask {
        task: program.task,
        pid: program.pid,
        root: program.root,
        entry: program.entry,
        stack: program.stack,
    }) && s[2] == (InitUserAction::AddTask { task: program.task }) && s[3]
        == (InitUserAction::SetLeader { task: program.task }) && s[4]
        == InitUserAction::EnterTable);
    assert(in_order_within(s, rank, 5, 10));
    lemma_order_of_parts(loading@, s, rank, 0, 5, 10);
}

/// What a CPU runs is what its slot holds, and the slot holds what it was given.
pub proof fn law_slot_holds_what_it_was_given(
    inited: &mut CurrentSlot,
    changed: &mut CurrentSlot,
    cleaned: &mut CurrentSlot,
    kept: &mut CurrentSlot,
    prev: CurrentTask,
    next: TaskRef,
    state: AxTaskState,
    released: TaskRef,
    last: TaskRef,
    ptr: usize,
    found: Option<CurrentTask>,
    none: Option<CurrentTask>,
)
    requires
        next.addr != 0,
        call_ensures(CurrentTask::init_current, (inited, next, true), state),
        call_ensures(CurrentTask::set_current, (changed, prev, next), released),
        call_ensures(CurrentTask::try_get, (&*final(changed),), found),
        call_ensures(CurrentTask::clean_current, (cleaned,), last),
        call_ensures(current_task_may_uninit, (&*final(cleaned),), none),
        call_ensures(CurrentTask::clean_current_without_drop, (kept,), ptr),
    ensures
        final(inited).ptr == next.addr,
        state == AxTaskState::Running,
        released == prev.task,
        found matches Some(c) && c.task == next,
        last.addr == old(cleaned).ptr,
        none is None,
        ptr == old(kept).ptr,
        final(kept).ptr == 0,
{
}

/// References to one task, or to one executor, are equal, and a copy is one to the same.
pub proof fn law_references_name_their_task(
    current: CurrentTask,
    executor: CurrentExecutor,
    other: TaskRef,
    other_executor: ExecutorRef,
    copy: TaskRef,
    same: bool,
    executor_copy: ExecutorRef,
    executor_same: bool,
)
    requires
        call_ensures(CurrentTask::clone, (&current,), copy),
        call_ensures(CurrentTask::ptr_eq, (&current, &other), same),
        call_ensures(CurrentExecutor::clone, (&executor,), executor_copy),
        call_ensures(CurrentExecutor::ptr_eq, (&executor, &other_executor), executor_same),
    ensures
        copy == current.task,
        same <==> current.task == other,
        executor_copy == executor.executor,
        executor_same <==> executor.executor == other_executor,
{
}

/// The executor of a CPU is the one that its slot was given, until it is taken away.
pub proof fn law_executor_slot_holds_what_it_was_given(
    slot: &mut ExecutorSlot,
    cleaned: &mut ExecutorSlot,
    kept: &mut ExecutorSlot,
    executor: ExecutorRef,
    found: Option<CurrentExecutor>,
    released: ExecutorRef,
    none: Option<CurrentExecutor>,
)
    requires
        executor.addr != 0,
        call_ensures(CurrentExecutor::init_current, (slot, executor), ()),
        call_ensures(CurrentExecutor::try_get, (&*final(slot),), found),
        call_ensures(CurrentExecutor::clean_current, (cleaned,), released),
        call_ensures(CurrentExecutor::try_get, (&*final(cleaned),), none),
        call_ensures(CurrentExecutor::clean_current_without_drop, (kept,), ()),
    ensures
        found matches Some(c) && c.executor == executor,
        released.addr == old(cleaned).ptr,
        none is None,
        final(kept).ptr == 0,
{
}

/// A task that sets an alarm is blocking, and its alarm is there once more; cancelling takes
/// all the alarms of a waker, and no other; and an alarm that is due is taken out once, the
/// earliest first.
pub proof fn law_alarms_are_kept_until_they_are_due(
    made: AlarmList,
    list: &mut AlarmList,
    state: &mut TaskState,
    cancelled: &mut AlarmList,
    checked: &mut AlarmList,
    deadline: u64,
    waker: u64,
    now: u64,
    due: Option<(u64, u64)>,
    other: (u64, u64),
)
    requires
        call_ensures(init_alarms, (), made),
        call_ensures(set_alarm_wakeup, (list, state, deadline, waker), ()),
        call_ensures(cancel_alarm, (cancelled, waker), ()),
        call_ensures(check_events, (checked, now), due),
    ensures
        alarms(made).count(other) == 0,
        *final(state) == TaskState::Blocking,
        alarms(*final(list)).count(other) == alarms(*old(list)).count(other) + (if other == (
            deadline,
            waker,
        ) {
            1nat
        } else {
            0nat
        }),
        other.1 == waker ==> alarms(*final(cancelled)).count(other) == 0,
        other.1 != waker ==> alarms(*final(cancelled)).count(other) == alarms(
            *old(cancelled),
        ).count(other),
        due is None && other.0 <= now ==> alarms(*old(checked)).count(other) == 0,
        due matches Some(d) ==> {
            &&& d.0 <= now
            &&& alarms(*old(checked)).count(d) > 0
            &&& alarms(*final(checked)).count(d) == alarms(*old(checked)).count(d) - 1
            &&& other != d ==> alarms(*final(checked)).count(other) == alarms(
                *old(checked),
            ).count(other)
            &&& alarms(*old(checked)).count(other) > 0 ==> d.0 <= other.0
        },
        due is None ==> alarms(*final(checked)).count(other) == alarms(*old(checked)).count(other),
{
    broadcast use vstd::multiset::group_multiset_axioms;

    if alarms(*old(checked)).count(other) > 0 {
        assert(alarms(*old(checked)).contains(other));
    }
}

/// An entity has the place that it was given, and counts as a user of it until it is given up.
pub proof fn law_entity_has_its_place(
    slot: Option<usize>,
    id: u64,
    entity: Result<IpcEntity, IpcError>,
    other: (IpcEntity, VqueueCall),
    number: u64,
    released: VqueueCall,
)
    requires
        call_ensures(IpcEntity::register, (slot,), entity),
        call_ensures(IpcEntity::from_id, (id,), other),
        id <= usize::MAX,
        call_ensures(IpcEntity::id, (&other.0,), number),
        call_ensures(IpcEntity::release, (other.0,), released),
    ensures
        entity is Ok <==> slot is Some,
        entity matches Ok(e) ==> Some(e.process_id) == slot,
        entity matches Err(e) ==> e == IpcError::RegisterFailed,
        number == id,
        other.1 == (VqueueCall::RetainSlot { process_id: id as usize }),
        released == (VqueueCall::ReleaseSlot { process_id: id as usize }),
{
}

/// A message goes to the queue of the entity that it is sent to, under its sender's number, and
/// an entity receives from its own; a message that a full queue did not take is an error.
pub proof fn law_messages_go_to_their_queues(
    entity: IpcEntity,
    dst: u64,
    msg_type: u64,
    data: [u64; 8],
    sent: VqueueCall,
    received: VqueueCall,
    pushed: bool,
    r: Result<(), IpcError>,
)
    requires
        dst <= usize::MAX,
        call_ensures(IpcEntity::send_to, (&entity, dst, msg_type, data), sent),
        call_ensures(IpcEntity::try_recv, (&entity,), received),
        call_ensures(IpcEntity::sent, (pushed,), r),
    ensures
        sent matches VqueueCall::DequePush { process_id, item } && process_id == dst && item.sender
            == entity.process_id && item.msg_type == msg_type && item.rep_type == 0 && item.data
            == data,
        received == (VqueueCall::DequePop { process_id: entity.process_id }),
        r is Ok <==> pushed,
        r matches Err(e) ==> e == IpcError::QueueFull,
{
}

/// What an entity asks of the queues is asked for its own place.
pub proof fn law_entity_asks_for_its_own_place(
    entity: IpcEntity,
    pid: usize,
    msg_type: usize,
    ntf_id: usize,
    set: VqueueCall,
    get: VqueueCall,
    added: VqueueCall,
    read: VqueueCall,
    popped: VqueueCall,
)
    requires
        call_ensures(IpcEntity::set_pid, (&entity, pid), set),
        call_ensures(IpcEntity::get_pid, (&entity,), get),
        call_ensures(IpcEntity::map_add, (&entity, msg_type, ntf_id), added),
        call_ensures(IpcEntity::map_get, (&entity, msg_type), read),
        call_ensures(IpcEntity::map_pop, (&entity, msg_type), popped),
    ensures
        set == (VqueueCall::SetPid { process_id: entity.process_id, pid }),
        get == (VqueueCall::GetPid { process_id: entity.process_id }),
        added == (VqueueCall::MapAddEntry { process_id: entity.process_id, msg_type, ntf_id }),
        read == (VqueueCall::MapGetNtfId { process_id: entity.process_id, msg_type }),
        popped == (VqueueCall::MapPopNtfId { process_id: entity.process_id, msg_type }),
{
}

/// Whether a value is the task ID of a task that the table has.
pub open spec fn is_there(table: SharedTaskTable, raw: usize) -> bool {
    let slot = table.slots@[((raw / 2) % 64) as int];
    raw % 2 == 1 && raw / 128 != 0 && slot.state == 2 && slot.generation == raw / 128
}

/// User space finds a task by its ID exactly while it is there, and reads of it what its slot
/// holds.
pub proof fn law_user_space_finds_its_tasks(
    table: SharedTaskTable,
    raw: usize,
    found: Option<UserTask>,
    current: Option<UserTask>,
    state: TaskState,
    priority: isize,
    coroutine: bool,
    kernel: bool,
    pid: usize,
)
    requires
        call_ensures(user_task, (&table, raw), found),
        call_ensures(current_user_task, (&table, raw), current),
        found matches Some(t) ==> {
            &&& call_ensures(UserTask::state, (&t, &table), state)
            &&& call_ensures(UserTask::priority, (&t, &table), priority)
            &&& call_ensures(UserTask::is_coroutine, (&t, &table), coroutine)
            &&& call_ensures(UserTask::is_kernel, (&t, &table), kernel)
            &&& call_ensures(UserTask::pid, (&t, &table), pid)
        },
    ensures
        found is Some <==> is_there(table, raw),
        current == found,
        found matches Some(t) ==> {
            let slot = table.slots@[((raw / 2) % 64) as int];
            &&& t.raw == raw
            &&& slot.task_state == 0 ==> state is Ready
            &&& slot.task_state == 1 ==> state is Running
            &&& slot.task_state == 2 ==> state is Blocked
            &&& slot.task_state == 3 ==> state is Exited
            &&& slot.task_state == 4 ==> state is Blocking
            &&& priority == slot.priority
            &&& coroutine == (slot.context_kind == 1)
            &&& !kernel
            &&& pid == slot.process_id
        },
{
}

/// User space sets the state and the process of a task in its slot, and nothing else.
pub proof fn law_user_space_changes_its_tasks(
    task: UserTask,
    table: &mut SharedTaskTable,
    moved: &mut SharedTaskTable,
    matched: &mut SharedTaskTable,
    state: TaskState,
    previous: TaskState,
    pid: usize,
    to: TaskState,
    was: TaskState,
    seen: TaskState,
)
    requires
        is_there(*old(table), task.raw),
        is_there(*old(moved), task.raw),
        is_there(*old(matched), task.raw),
        call_ensures(UserTask::set_state, (&task, table, state), previous),
        call_ensures(UserTask::state, (&task, &*final(table)), seen),
        call_ensures(UserTask::set_pid, (&task, moved, pid), ()),
        call_ensures(
            UserTask::match_set_state,
            (&task, matched, to, TaskState::Running, to, TaskState::Exited, to),
            was,
        ),
    ensures
        ({
            let i = ((task.raw / 2) % 64) as int;
            let raw = final(table).slots@[i].task_state;
            &&& seen == state
            &&& state is Ready ==> raw == 0
            &&& state is Running ==> raw == 1
            &&& state is Blocked ==> raw == 2
            &&& state is Exited ==> raw == 3
            &&& state is Blocking ==> raw == 4
            &&& old(table).slots@[i].task_state == 0 ==> previous is Ready
            &&& old(table).slots@[i].task_state == 1 ==> previous is Running
            &&& old(table).slots@[i].task_state == 2 ==> previous is Blocked
            &&& final(table).slots@[i].generation == old(table).slots@[i].generation
            &&& final(table).slots@[i].process_id == old(table).slots@[i].process_id
            &&& final(moved).slots@[i].process_id == pid
            &&& final(moved).slots@[i].task_state == old(moved).slots@[i].task_state
            &&& old(matched).slots@[i].task_state == 1 ==> final(matched).slots@[i].task_state
                == 1 && was is Running
            &&& old(matched).slots@[i].task_state == 3 ==> final(matched).slots@[i].task_state
                == 3 && was is Exited
            &&& old(matched).slots@[i].task_state == 2 && to is Ready ==> final(matched).slots@[i].task_state == 0 && was is Blocked
        }),
{
}


/// The path of a process is the one that was set, and its ID the one that it was made with.
pub proof fn law_process_has_its_path(
    process: &mut Executor,
    path: String,
    read: String,
    pid: usize,
)
    requires
        call_ensures(Executor::set_exe_path, (process, path), ()),
        call_ensures(Executor::get_exe_path, (&*final(process),), read),
        call_ensures(Executor::pid, (&*final(process),), pid),
    ensures
        read@ == path@,
        pid == old(process).pid,
        final(process).cmdline == old(process).cmdline,
        final(process).heap_top == old(process).heap_top,
{
}


/// Whatever is asked, the executor and the task of a CPU are those whose addresses its slots
/// hold.
pub proof fn law_executor_of_a_cpu_is_the_one_in_its_slot(
    slot: ExecutorSlot,
    got: CurrentExecutor,
    shared: &ExecutorRef,
    tasks: CurrentSlot,
    task: CurrentTask,
)
    requires
        call_ensures(CurrentExecutor::get, (&slot,), got),
        call_ensures(CurrentExecutor::as_executor_ref, (&got,), shared),
        call_ensures(current_task, (&tasks,), task),
    ensures
        got.executor.addr == slot.ptr,
        shared.addr == slot.ptr,
        task.task.addr == tasks.ptr,
{
}

} // verus!
