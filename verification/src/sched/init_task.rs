//! The first user task.

use vstd::prelude::*;

use crate::sched::dispatch::lemma_registry_kept;
use crate::sched::frames::{is_frame_call, is_fresh, lemma_frame_saved, FrameCall};
use crate::sched::registry::{new_task, register_task, registered, SchedTasks, TaskPlacement};
use crate::sched::task::{AxTask, VschedTaskImpl};
use crate::sched::trapframe::{UserGeneralRegs, UserTrapFrame, UserTrapFrameKind};
use crate::syscall::context::UserContext;

verus! {

/// The process of the first user task, by its index in the scheduler's table.
pub const INIT_PID: usize = 1;

/// The frame from which the first user task starts: at its entry, on its stack, with its
/// argument. Its return address is 0, so that a return goes nowhere rather than into the
/// kernel.
pub open spec fn init_frame(context: UserContext) -> UserTrapFrame {
    UserTrapFrame {
        regs: UserGeneralRegs {
            a0: context.regs.a0,
            sp: context.regs.sp,
            ..UserGeneralRegs::zeroed()
        },
        sepc: context.sepc,
        sstatus: context.sstatus,
        scause: 0,
        stval: 0,
        kind: UserTrapFrameKind::Yield,
    }
}

/// Makes the frame from which the first user task starts.
pub fn init_task_frame(context: &UserContext) -> (frame: UserTrapFrame)
    ensures
        frame == init_frame(*context),
{
    let mut regs: UserGeneralRegs = UserGeneralRegs::default();
    regs.a0 = context.regs.a0;
    regs.sp = context.regs.sp;
    regs.ra = 0;
    UserTrapFrame {
        regs,
        sepc: context.sepc,
        sstatus: context.sstatus,
        scause: 0,
        stval: 0,
        kind: UserTrapFrameKind::Yield,
    }
}

/// What the first user task is made of, besides its kernel task.
#[derive(Clone, Copy, Debug, Eq, PartialEq, Structural)]
pub struct InitTaskParts {
    /// Its stack object.
    pub stack: usize,
    /// Its frame, by address.
    pub frame: usize,
    /// What it starts with.
    pub context: UserContext,
    /// The root of its page table.
    pub user_root: usize,
    /// Its address space.
    pub aspace: usize,
    /// Where its address space has the scheduler's code.
    pub vdso_base: usize,
}

/// Makes the first user task: a thread with the highest priority, in the first process.
pub fn create_vsched_init_task(
    tasks: &mut SchedTasks,
    place: TaskPlacement,
    task: AxTask,
    parts: InitTaskParts,
) -> (addr: usize)
    requires
        old(tasks).kernel_wf(),
        place.addr != 0,
        place.addr % 2 == 0,
        !old(tasks).objects@.contains_key(place.addr),
        is_fresh(*old(tasks), parts.frame),
    ensures
        addr == place.addr,
        final(tasks).objects@ == old(tasks).objects@.insert(
            addr,
            (VschedTaskImpl {
                thread_stack_ptr: parts.stack,
                trap_frame: parts.frame,
                user_page_table_root: parts.user_root,
                user_aspace_ptr: parts.aspace,
                ..new_task(place, task, 0, INIT_PID, false, None, parts.vdso_base)
            }),
        ),
        final(tasks).frames@ == old(tasks).frames@.insert(parts.frame, init_frame(parts.context)),
        is_frame_call(
            *old(tasks),
            *final(tasks),
            FrameCall::Save { task: addr, frame: init_frame(parts.context) },
        ),
        final(tasks).table == old(tasks).table,
        registered(final(tasks).registry) == registered(old(tasks).registry),
        final(tasks).kernel_wf(),
        old(tasks).in_step() ==> final(tasks).in_step(),
{
    broadcast use vstd::std_specs::btree::group_btree_axioms;

    let addr: usize = register_task(
        tasks,
        place,
        task,
        0,
        INIT_PID,
        false,
        None,
        parts.vdso_base,
    );
    let ghost made = *tasks;
    let mut object: VschedTaskImpl = *tasks.objects.get(&addr).unwrap();
    object.thread_stack_ptr = parts.stack;
    object.trap_frame = parts.frame;
    object.user_page_table_root = parts.user_root;
    object.user_aspace_ptr = parts.aspace;
    let frame: UserTrapFrame = init_task_frame(&parts.context);
    tasks.frames.insert(parts.frame, frame);
    tasks.objects.insert(addr, object);
    assert(tasks.objects@ =~= old(tasks).objects@.insert(addr, object));
    proof {
        lemma_frame_saved(*old(tasks), *tasks, addr, object, frame);
        lemma_registry_kept(made, *tasks, addr, object);
    }
    addr
}

/// The first user task enters user space at the entry of its program, on its stack and with
/// its argument, and has nowhere to return to.
pub proof fn law_init_task_starts_at_its_entry(context: UserContext, live: UserGeneralRegs)
    ensures
        init_frame(context).left(live).pc == context.sepc,
        init_frame(context).left(live).regs.sp == context.regs.sp,
        init_frame(context).left(live).regs.a0 == context.regs.a0,
        init_frame(context).left(live).regs.ra == 0,
{
}

} // verus!
