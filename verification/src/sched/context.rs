//! Changes of privilege and of address space.

use vstd::prelude::*;

use crate::sched::registry::{direct_task, read_frame, SchedTasks};
use crate::sched::trapframe::UserTrapFrame;

verus! {

/// Where user space is entered.
#[derive(Clone, Copy, Debug, Eq, PartialEq, Structural)]
pub struct VschedContextImpl {
    /// Where in the scheduler's image the function is that runs a task, or 0.
    pub raw_run_task_offset: usize,
    /// Where the process that is loaded now has the scheduler's image.
    pub process_vdso_base: usize,
}

/// Says whether the page table of an address space must be loaded. `current_root` is the
/// one in use.
pub fn activate_user_aspace(root: usize, current_root: usize) -> (load: bool)
    ensures
        load == (current_root != root),
{
    current_root != root
}

/// The page table of the address space at `ptr`, whose root is `root`, if there is one.
pub fn page_table_root_from_raw(ptr: usize, root: usize) -> (r: Option<usize>)
    ensures
        r == (if ptr != 0 && root != 0 {
            Some(root)
        } else {
            None
        }),
{
    if ptr == 0 {
        return None;
    }
    if root == 0 {
        return None;
    }
    Some(root)
}

/// The scheduler's view of address spaces.
#[derive(Clone, Copy, Debug, Eq, PartialEq, Structural)]
pub struct VschedVSpaceImpl {}

impl VschedVSpaceImpl {
    /// Changes to the address space at `vspace`, whose page table is `root`: says which
    /// page table is loaded, if one is.
    pub fn into_vspace(vspace: usize, root: usize, current_root: usize) -> (load: Option<usize>)
        ensures
            load == (if vspace != 0 && root != 0 && current_root != root {
                Some(root)
            } else {
                None
            }),
    {
        match page_table_root_from_raw(vspace, root) {
            Some(r) => if activate_user_aspace(r, current_root) {
                Some(r)
            } else {
                None
            },
            None => None,
        }
    }
}

impl VschedContextImpl {
    /// Nothing known yet.
    pub fn new() -> (context: Self)
        ensures
            context == (VschedContextImpl { raw_run_task_offset: 0, process_vdso_base: 0 }),
    {
        VschedContextImpl { raw_run_task_offset: 0, process_vdso_base: 0 }
    }

    /// Where in user space a coroutine is entered: at the function that runs a task, in the
    /// image that the current task's address space has. `current` is the current task's ID or
    /// its address.
    pub fn into_user(&self, tasks: &SchedTasks, current: usize) -> (entry: usize)
        requires
            self.raw_run_task_offset != 0,
            tasks.resolve(current) matches Some(addr) && {
                &&& tasks.objects@.contains_key(addr)
                &&& tasks.objects@[addr].user_vdso_base != 0
                &&& tasks.objects@[addr].user_vdso_base + self.raw_run_task_offset <= usize::MAX
            },
        ensures
            tasks.resolve(current) matches Some(addr) && entry
                == tasks.objects@[addr].user_vdso_base + self.raw_run_task_offset,
    {
        broadcast use vstd::std_specs::btree::group_btree_axioms;

        let addr: usize = direct_task(tasks, current).unwrap();
        let user_vdso_base: usize = tasks.objects.get(&addr).unwrap().user_vdso_base;
        user_vdso_base + self.raw_run_task_offset
    }

    /// The registers with which a thread is entered in user space: those in its frame. `task`
    /// is its task ID or its address.
    pub fn into_user_context(tasks: &SchedTasks, task: usize) -> (frame: UserTrapFrame)
        requires
            tasks.kernel_wf(),
            tasks.resolve(task) matches Some(addr) && tasks.frame_of(addr) is Some,
        ensures
            tasks.resolve(task) matches Some(addr) && tasks.frame_of(addr) == Some(frame),
    {
        read_frame(tasks, task).unwrap()
    }
}

/// Notes where in the scheduler's image the function is that runs a task. `kernel_addr` is
/// where the kernel has it, and `kernel_vdso_base` where it has the image.
pub fn init_raw_run_task_offset(
    context: &mut VschedContextImpl,
    kernel_addr: usize,
    kernel_vdso_base: usize,
)
    requires
        kernel_vdso_base <= kernel_addr,
    ensures
        *final(context) == (VschedContextImpl {
            raw_run_task_offset: (kernel_addr - kernel_vdso_base) as usize,
            ..*old(context)
        }),
{
    context.raw_run_task_offset = kernel_addr - kernel_vdso_base;
}

/// Notes where the process that is loaded now has the scheduler's image.
pub fn set_process_vdso_base(context: &mut VschedContextImpl, base: usize)
    ensures
        *final(context) == (VschedContextImpl { process_vdso_base: base, ..*old(context) }),
{
    context.process_vdso_base = base;
}

/// Where the process that is loaded now has the scheduler's image.
pub fn get_process_vdso_base(context: &VschedContextImpl) -> (base: usize)
    ensures
        base == context.process_vdso_base,
{
    context.process_vdso_base
}

} // verus!
