//! Registers: how they are saved, and how a task goes on with them.

use vstd::prelude::*;

use crate::sched::init_task::init_task_frame;
use crate::sched::task::initial_kernel_thread_frame;
use crate::sched::trapframe::{ResumePoint, UserGeneralRegs, UserTrapFrame, UserTrapFrameKind};
use crate::syscall::context::{finish_syscall, syscall_context, UserContext};

verus! {

/// A task that trapped and is entered from its frame has all its registers back, its status
/// word, and its place, whatever the CPU holds by then, on each of the ways to user space.
pub proof fn law_trap_and_return_give_back_everything(
    live: UserGeneralRegs,
    sepc: usize,
    sstatus: usize,
    scause: usize,
    stval: usize,
    frame: UserTrapFrame,
    later: UserGeneralRegs,
    satp: usize,
    kernel: ResumePoint,
    user: ResumePoint,
    switched: ResumePoint,
)
    requires
        live.zero == 0,
        later.zero == 0,
        call_ensures(UserTrapFrame::save_trap, (&live, sepc, sstatus, scause, stval), frame),
        call_ensures(UserTrapFrame::restore_and_sret, (&frame, &later), kernel),
        call_ensures(UserTrapFrame::restore_and_sret_user, (&frame, &later), user),
        call_ensures(
            UserTrapFrame::restore_and_sret_user_with_satp,
            (&frame, &later, satp),
            switched,
        ),
    ensures
        frame.regs == live,
        frame.sepc == sepc,
        frame.sstatus == sstatus,
        frame.scause == scause,
        frame.stval == stval,
        frame.kind == UserTrapFrameKind::Trap,
        kernel.regs == live,
        kernel.pc == sepc,
        kernel.sstatus == Some(sstatus),
        kernel.satp is None,
        user == kernel,
        switched.regs == live,
        switched.pc == sepc,
        switched.sstatus == Some(sstatus),
        switched.satp == Some(satp),
{
}

/// A task that trapped and goes on in the kernel has all its registers back but one, and its
/// place.
pub proof fn law_trap_and_jump_give_back_all_but_one(
    live: UserGeneralRegs,
    sepc: usize,
    sstatus: usize,
    scause: usize,
    stval: usize,
    frame: UserTrapFrame,
    later: UserGeneralRegs,
    resume: ResumePoint,
)
    requires
        live.zero == 0,
        later.zero == 0,
        call_ensures(UserTrapFrame::save_trap, (&live, sepc, sstatus, scause, stval), frame),
        call_ensures(UserTrapFrame::restore_and_jump, (&frame, &later), resume),
    ensures
        resume.regs == (UserGeneralRegs { t0: resume.regs.t0, ..live }),
        resume.pc == sepc,
        resume.sstatus is None,
        resume.satp is None,
{
}

/// A task that yielded goes on at its return address, with its stack and the registers that a
/// call preserves; the others are what the CPU holds by then.
pub proof fn law_yield_gives_back_what_a_call_preserves(
    live: UserGeneralRegs,
    stack: UserTrapFrame,
    frame: UserTrapFrame,
    later: UserGeneralRegs,
    resume: ResumePoint,
)
    requires
        call_ensures(UserTrapFrame::save_yield, (&live, &stack), frame),
        call_ensures(UserTrapFrame::restore_and_jump, (&frame, &later), resume),
    ensures
        frame.kind == UserTrapFrameKind::Yield,
        resume.pc == live.ra,
        resume.regs.ra == live.ra,
        resume.regs.sp == live.sp,
        resume.regs.s0 == live.s0,
        resume.regs.s1 == live.s1,
        resume.regs.s2 == live.s2,
        resume.regs.s3 == live.s3,
        resume.regs.s4 == live.s4,
        resume.regs.s5 == live.s5,
        resume.regs.s6 == live.s6,
        resume.regs.s7 == live.s7,
        resume.regs.s8 == live.s8,
        resume.regs.s9 == live.s9,
        resume.regs.s10 == live.s10,
        resume.regs.s11 == live.s11,
        resume.regs.zero == later.zero,
        resume.regs.gp == later.gp,
        resume.regs.tp == later.tp,
        resume.regs.a0 == later.a0 && resume.regs.a1 == later.a1,
        resume.regs.a2 == later.a2 && resume.regs.a3 == later.a3,
        resume.regs.a4 == later.a4 && resume.regs.a5 == later.a5,
        resume.regs.a6 == later.a6 && resume.regs.a7 == later.a7,
        resume.regs.t0 == later.t0 && resume.regs.t1 == later.t1,
        resume.regs.t2 == later.t2 && resume.regs.t3 == later.t3,
        resume.regs.t4 == later.t4 && resume.regs.t5 == later.t5,
        resume.regs.t6 == later.t6,
        frame.sepc == stack.sepc,
        frame.sstatus == stack.sstatus,
        resume.sstatus is None,
        resume.satp is None,
{
}

/// Whether all registers but the stack pointer and the first argument are 0.
pub open spec fn only_stack_and_argument(regs: UserGeneralRegs) -> bool {
    &&& regs.zero == 0 && regs.ra == 0 && regs.gp == 0 && regs.tp == 0
    &&& regs.t0 == 0 && regs.t1 == 0 && regs.t2 == 0 && regs.t3 == 0
    &&& regs.t4 == 0 && regs.t5 == 0 && regs.t6 == 0
    &&& regs.a1 == 0 && regs.a2 == 0 && regs.a3 == 0 && regs.a4 == 0
    &&& regs.a5 == 0 && regs.a6 == 0 && regs.a7 == 0
    &&& regs.s0 == 0 && regs.s1 == 0 && regs.s2 == 0 && regs.s3 == 0
    &&& regs.s4 == 0 && regs.s5 == 0 && regs.s6 == 0 && regs.s7 == 0
    &&& regs.s8 == 0 && regs.s9 == 0 && regs.s10 == 0 && regs.s11 == 0
}

/// A context that is made begins at its entry, on its stack, with its argument, and all other
/// registers 0.
pub proof fn law_new_context_begins_at_its_entry(
    entry: usize,
    stack: usize,
    arg0: usize,
    sstatus: usize,
    context: UserContext,
)
    requires
        call_ensures(UserContext::new, (entry, stack, arg0, sstatus), context),
    ensures
        context.sepc == entry,
        context.regs.sp == stack,
        context.regs.a0 == arg0,
        context.sstatus == sstatus,
        only_stack_and_argument(context.regs),
{
}

/// A system call is carried out with all the registers of the task, and the task goes on after
/// the instruction that made it; of what the call leaves, the result, the second result, the
/// stack pointer, the place and the status word are given to the task, and every other register
/// stays.
pub proof fn law_system_call_gives_its_results(
    frame: UserTrapFrame,
    sstatus: usize,
    context: UserContext,
    after: UserContext,
    written: &mut UserTrapFrame,
)
    requires
        call_ensures(syscall_context, (&frame, sstatus), context),
        frame.sepc + 4 <= usize::MAX,
        call_ensures(finish_syscall, (written, &after), ()),
    ensures
        context.regs == frame.regs,
        context.sepc == frame.sepc + 4,
        context.sstatus == sstatus,
        final(written).regs.a0 == after.regs.a0,
        final(written).regs.a1 == after.regs.a1,
        final(written).regs.sp == after.regs.sp,
        final(written).regs == (UserGeneralRegs {
            a0: after.regs.a0,
            a1: after.regs.a1,
            sp: after.regs.sp,
            ..old(written).regs
        }),
        final(written).sepc == after.sepc,
        final(written).sstatus == after.sstatus,
        final(written).scause == old(written).scause,
        final(written).stval == old(written).stval,
        final(written).kind == old(written).kind,
{
}

/// A kernel thread starts at its entry, on the stack of its kernel task, with interrupts
/// disabled, and returns from a trap to the kernel; one without a stack has no frame.
pub proof fn law_kernel_thread_starts_at_its_entry(
    stack_top: Option<usize>,
    kernel_gp: usize,
    entry: usize,
    frame: Option<UserTrapFrame>,
    later: UserGeneralRegs,
    resume: ResumePoint,
)
    requires
        call_ensures(initial_kernel_thread_frame, (stack_top, kernel_gp, entry), frame),
        frame matches Some(f) ==> call_ensures(
            UserTrapFrame::restore_and_jump,
            (&f, &later),
            resume,
        ),
    ensures
        frame is Some <==> stack_top is Some,
        frame matches Some(f) ==> {
            &&& f.sstatus == 0x100
            &&& Some(resume.regs.sp) == stack_top
            &&& resume.regs.gp == kernel_gp
            &&& resume.pc == entry
            &&& f.scause == 0 && f.stval == 0
            &&& f.regs.a0 == 0
            &&& only_stack_and_argument(UserGeneralRegs { gp: 0, ..f.regs })
        },
{
}

/// The first user task starts at the entry, on the stack and with the argument of its context,
/// and has nowhere to return to.
pub proof fn law_first_task_starts_with_its_context(
    context: UserContext,
    frame: UserTrapFrame,
    later: UserGeneralRegs,
    resume: ResumePoint,
)
    requires
        call_ensures(init_task_frame, (&context,), frame),
        call_ensures(UserTrapFrame::restore_and_sret, (&frame, &later), resume),
    ensures
        resume.pc == context.sepc,
        resume.regs.sp == context.regs.sp,
        resume.regs.a0 == context.regs.a0,
        frame.kind == UserTrapFrameKind::Yield,
        frame.scause == 0 && frame.stval == 0,
        only_stack_and_argument(frame.regs),
        resume.sstatus == Some(context.sstatus),
        resume.satp is None,
{
}

} // verus!
