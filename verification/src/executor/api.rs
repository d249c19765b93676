//! The executors of a system.

use std::collections::BTreeMap;

use vstd::prelude::*;

use crate::axtask::api::{CurrentSlot, TaskRef};
use crate::asynctask::current::CurrentTask;
use crate::executor::current::{CurrentExecutor, ExecutorSlot};
use crate::executor::process::{Executor, ExecutorRef, KERNEL_EXECUTOR_ID};

verus! {

broadcast use vstd::std_specs::btree::group_btree_axioms;

/// The executors of a system.
pub struct Executors {
    /// The executors, by address.
    pub objects: BTreeMap<usize, Executor>,
    /// The kernel's executor, once it is there.
    pub kernel: Option<usize>,
    /// Which executor is the process of an ID.
    pub table: BTreeMap<usize, ExecutorRef>,
}

impl Executors {
    /// What is named is there.
    pub open spec fn wf(&self) -> bool {
        &&& self.kernel matches Some(addr) ==> self.objects@.contains_key(addr)
        &&& forall|pid: usize|
            self.table@.contains_key(pid) ==> self.objects@.contains_key(
                (#[trigger] self.table@[pid]).addr,
            )
    }

    /// A system without executors.
    pub fn new() -> (executors: Self)
        ensures
            executors.wf(),
            executors.objects@ == Map::<usize, Executor>::empty(),
            executors.kernel is None,
            executors.table@ == Map::<usize, ExecutorRef>::empty(),
    {
        Executors { objects: BTreeMap::new(), kernel: None, table: BTreeMap::new() }
    }
}

/// Makes the kernel's executor, at `addr`, and the one of the first CPU.
pub fn init(executors: &mut Executors, slot: &mut ExecutorSlot, addr: usize, heap_base: usize)
    requires
        old(executors).wf(),
        old(executors).kernel is None,
        addr != 0,
        !old(executors).objects@.contains_key(addr),
    ensures
        final(executors).wf(),
        final(executors).kernel == Some(addr),
        final(executors).table@ == old(executors).table@,
        final(executors).objects@.dom() == old(executors).objects@.dom().insert(addr),
        final(executors).objects@.remove(addr) == old(executors).objects@,
        final(executors).objects@[addr].is_new(
            KERNEL_EXECUTOR_ID,
            KERNEL_EXECUTOR_ID,
            None,
            Seq::empty(),
            Seq::empty(),
            heap_base,
        ),
        final(slot).ptr == addr,
{
    let kexecutor: Executor = Executor::new_init(heap_base);
    executors.objects.insert(addr, kexecutor);
    executors.kernel = Some(addr);
    CurrentExecutor::init_current(slot, ExecutorRef { addr });
    assert(executors.objects@.remove(addr) =~= old(executors).objects@);
    assert(executors.objects@.dom() =~= old(executors).objects@.dom().insert(addr));
}

/// Makes the kernel's executor that of another CPU.
pub fn init_secondary(executors: &Executors, slot: &mut ExecutorSlot)
    requires
        executors.kernel is Some,
    ensures
        Some(final(slot).ptr) == executors.kernel,
{
    let addr: usize = executors.kernel.unwrap();
    CurrentExecutor::init_current(slot, ExecutorRef { addr });
}

/// The task that the CPU runs, if any.
pub fn current_task_may_uninit(slot: &CurrentSlot) -> (task: Option<CurrentTask>)
    ensures
        task == (if slot.ptr != 0 {
            Some(CurrentTask { task: TaskRef { addr: slot.ptr } })
        } else {
            None
        }),
{
    CurrentTask::try_get(slot)
}

/// The task that the CPU runs.
pub fn current_task(slot: &CurrentSlot) -> (task: CurrentTask)
    requires
        slot.ptr != 0,
    ensures
        task == (CurrentTask { task: TaskRef { addr: slot.ptr } }),
{
    CurrentTask::get(slot)
}

/// The executor of the process whose ID the current task has.
pub fn current_executor(executors: &Executors, process_id: usize) -> (executor: ExecutorRef)
    requires
        executors.table@.contains_key(process_id),
    ensures
        executor == executors.table@[process_id],
{
    let found: &ExecutorRef = executors.table.get(&process_id).unwrap();
    ExecutorRef { addr: found.addr }
}

/// What is done to the page table before a program is loaded.
#[derive(Clone, Copy, Debug, Eq, PartialEq, Structural)]
pub struct PageTableWork {
    /// The root is written, and what was known of the old table is forgotten.
    pub switch: bool,
    /// The kernel may access user memory.
    pub allow_access: bool,
}

/// Says what is done to the page table before a program is loaded into an address space with
/// the page table `root`, where `current` is in use.
pub fn user_page_table(root: usize, current: usize) -> (work: PageTableWork)
    ensures
        work == (PageTableWork { switch: root != 0 && root != current, allow_access: root != 0 }),
{
    if root != 0 {
        PageTableWork { switch: root != current, allow_access: true }
    } else {
        PageTableWork { switch: false, allow_access: false }
    }
}

/// One of the things that are done to make the first process of user space.
#[derive(Clone, Copy, Debug, Eq, PartialEq, Structural)]
pub enum InitUserAction {
    DisableIrqs,
    /// Write the root of the page table, and forget what was known of the old one.
    SwitchPageTable { root: usize },
    /// The kernel may access user memory.
    AllowAccess,
    /// Load the program into the address space. A failure ends the system.
    Load,
    EnableIrqs,
    /// Give the process the standard files.
    AddStdio { pid: usize },
    /// Make the task at `task`: it starts at `entry`, on `stack`, with the page table `root`.
    MakeTask { task: usize, pid: usize, root: usize, entry: usize, stack: usize },
    /// Give the task to the kernel's scheduler.
    AddTask { task: usize },
    /// The task leads its process.
    SetLeader { task: usize },
    /// The process enters the table: `init_user`.
    EnterTable,
}

/// What is done to load the program, in order: its page table is in use meanwhile, and nothing
/// interrupts it.
pub open spec fn load_steps(root: usize, current: usize) -> Seq<InitUserAction> {
    let switch = if root != 0 && root != current {
        seq![InitUserAction::SwitchPageTable { root }]
    } else {
        Seq::empty()
    };
    let allow = if root != 0 {
        seq![InitUserAction::AllowAccess]
    } else {
        Seq::empty()
    };
    seq![InitUserAction::DisableIrqs] + switch + allow + seq![
        InitUserAction::Load,
        InitUserAction::EnableIrqs,
    ]
}

/// Says what is done to load the program into an address space with the page table `root`,
/// where `current` is in use.
pub fn load_user_actions(root: usize, current: usize) -> (actions: Vec<InitUserAction>)
    ensures
        actions@ == load_steps(root, current),
{
    let work: PageTableWork = user_page_table(root, current);
    let mut actions: Vec<InitUserAction> = Vec::new();
    actions.push(InitUserAction::DisableIrqs);
    if work.switch {
        actions.push(InitUserAction::SwitchPageTable { root });
    }
    if work.allow_access {
        actions.push(InitUserAction::AllowAccess);
    }
    actions.push(InitUserAction::Load);
    actions.push(InitUserAction::EnableIrqs);
    assert(actions@ =~= load_steps(root, current));
    actions
}

/// What is done to start a program that has been loaded, in order.
pub open spec fn start_steps(program: LoadedProgram) -> Seq<InitUserAction> {
    seq![
        InitUserAction::AddStdio { pid: program.pid },
        InitUserAction::MakeTask {
            task: program.task,
            pid: program.pid,
            root: program.root,
            entry: program.entry,
            stack: program.stack,
        },
        InitUserAction::AddTask { task: program.task },
        InitUserAction::SetLeader { task: program.task },
        InitUserAction::EnterTable,
    ]
}

/// Says what is done to start a program that has been loaded.
pub fn start_user_actions(program: &LoadedProgram) -> (actions: Vec<InitUserAction>)
    ensures
        actions@ == start_steps(*program),
{
    let mut actions: Vec<InitUserAction> = Vec::new();
    actions.push(InitUserAction::AddStdio { pid: program.pid });
    actions.push(
        InitUserAction::MakeTask {
            task: program.task,
            pid: program.pid,
            root: program.root,
            entry: program.entry,
            stack: program.stack,
        },
    );
    actions.push(InitUserAction::AddTask { task: program.task });
    actions.push(InitUserAction::SetLeader { task: program.task });
    actions.push(InitUserAction::EnterTable);
    assert(actions@ =~= start_steps(*program));
    actions
}

/// A program is loaded with interrupts disabled and its own page table in use, if it has one,
/// which the kernel can access; interrupts are enabled again right after.
pub proof fn law_program_is_loaded_undisturbed(root: usize, current: usize, i: int)
    requires
        0 <= i < load_steps(root, current).len(),
    ensures
        ({
            let steps = load_steps(root, current);
            let n = steps.len() as int;
            &&& steps[i] is DisableIrqs <==> i == 0
            &&& steps[i] is Load <==> i == n - 2
            &&& steps[i] is EnableIrqs <==> i == n - 1
            &&& root != 0 ==> steps[n - 3] is AllowAccess
            &&& root != 0 && root != current ==> steps[1] == InitUserAction::SwitchPageTable {
                root,
            }
        }),
{
}

/// The program of a new process, once it is loaded.
pub struct LoadedProgram {
    /// The ID of the process.
    pub pid: usize,
    /// The address space it was loaded into, and the root of its page table.
    pub aspace: usize,
    pub root: usize,
    /// Where it starts, and its stack.
    pub entry: usize,
    pub stack: usize,
    pub path: String,
    pub args: Vec<String>,
    /// The task that runs it.
    pub task: usize,
}

/// Makes the first process of user space, at `addr`, out of a program that has been loaded: a
/// child of the kernel's executor, with one task, its main task. The process and the kernel's executor enter
/// the table of processes. The task is the result.
pub fn init_user(
    executors: &mut Executors,
    addr: usize,
    program: LoadedProgram,
    heap_base: usize,
) -> (task: TaskRef)
    requires
        old(executors).wf(),
        old(executors).kernel is Some,
        !old(executors).objects@.contains_key(addr),
    ensures
        final(executors).wf(),
        task.addr == program.task,
        final(executors).kernel == old(executors).kernel,
        final(executors).table@ == old(executors).table@.insert(
            program.pid,
            ExecutorRef { addr },
        ).insert(KERNEL_EXECUTOR_ID, ExecutorRef { addr: old(executors).kernel.unwrap() }),
        final(executors).objects@.dom() == old(executors).objects@.dom().insert(addr),
        forall|other: usize|
            other != addr && Some(other) != old(executors).kernel && old(executors).objects@.contains_key(other) ==> #[trigger] final(executors).objects@[other] == old(executors).objects@[other],
        ({
            let made = final(executors).objects@[addr];
            &&& made.tasks@ == seq![TaskRef { addr: program.task }]
            &&& made.main_task == Some(TaskRef { addr: program.task })
            &&& exists|before: Executor|
                before.is_new(
                    program.pid,
                    KERNEL_EXECUTOR_ID,
                    Some(program.aspace),
                    program.path@,
                    program.args@,
                    heap_base,
                ) && #[trigger] with_tasks(before, made.tasks, made.main_task) == made
        }),
        ({
            let kernel = old(executors).kernel.unwrap();
            let before = old(executors).objects@[kernel];
            let after = final(executors).objects@[kernel];
            &&& after.children@ == before.children@.push(ExecutorRef { addr })
            &&& after == with_children(before, after.children)
        }),
{
    let kernel: usize = executors.kernel.unwrap();
    let pid: usize = program.pid;
    let mut executor: Executor = Executor::new(
        pid,
        KERNEL_EXECUTOR_ID,
        Some(program.aspace),
        program.path,
        program.args,
        heap_base,
    );
    let ghost fresh = executor;
    executor.tasks.push(TaskRef { addr: program.task });
    assert(executor.tasks@ =~= seq![TaskRef { addr: program.task }]);
    executor.set_main_task(TaskRef { addr: program.task });
    assert(with_tasks(fresh, executor.tasks, executor.main_task) == executor);
    executors.objects.insert(addr, executor);
    executors.table.insert(pid, ExecutorRef { addr });
    executors.table.insert(KERNEL_EXECUTOR_ID, ExecutorRef { addr: kernel });
    let mut kexecutor: Executor = executors.objects.remove(&kernel).unwrap();
    kexecutor.children.push(ExecutorRef { addr });
    executors.objects.insert(kernel, kexecutor);
    assert(executors.objects@.dom() =~= old(executors).objects@.dom().insert(addr));
    TaskRef { addr: program.task }
}

/// An executor with other tasks.
pub open spec fn with_tasks(
    executor: Executor,
    tasks: Vec<TaskRef>,
    main_task: Option<TaskRef>,
) -> Executor {
    Executor { tasks, main_task, ..executor }
}

/// An executor with other children.
pub open spec fn with_children(executor: Executor, children: Vec<ExecutorRef>) -> Executor {
    Executor { children, ..executor }
}

/// The process of a task is found by the ID that the task was made with, and the kernel's
/// executor by its own, once a process has been made.
pub proof fn law_made_process_is_found(
    table: Map<usize, ExecutorRef>,
    pid: usize,
    addr: usize,
    kernel: usize,
)
    requires
        pid != KERNEL_EXECUTOR_ID,
    ensures
        ({
            let after = table.insert(pid, ExecutorRef { addr }).insert(
                KERNEL_EXECUTOR_ID,
                ExecutorRef { addr: kernel },
            );
            &&& after[pid].addr == addr
            &&& after[KERNEL_EXECUTOR_ID].addr == kernel
        }),
{
}

} // verus!
