//! What a user task runs with, errors, and signals.

use vstd::prelude::*;

use crate::axtask::waker::Interrupted;
use crate::sched::trapframe::{UserGeneralRegs, UserTrapFrame};

verus! {

/// An error of a system call.
#[derive(Clone, Copy, Debug, Eq, PartialEq, Structural)]
pub enum SysError {
    InvalidInput,
    WouldBlock,
    Interrupted,
    /// There is no child to wait for.
    NoChild,
    FilesystemLoop,
    /// An error of what was called, by its number.
    Other { code: i32 },
}

impl From<Interrupted> for SysError {
    fn from(_interrupted: Interrupted) -> (error: SysError) {
        SysError::Interrupted
    }
}

impl vstd::std_specs::convert::FromSpecImpl<Interrupted> for SysError {
    open spec fn obeys_from_spec() -> bool {
        true
    }

    open spec fn from_spec(_interrupted: Interrupted) -> SysError {
        SysError::Interrupted
    }
}

pub const SIGILL: u8 = 4;

pub const SIGTRAP: u8 = 5;

pub const SIGBUS: u8 = 7;

pub const SIGKILL: u8 = 9;

pub const SIGSEGV: u8 = 11;

pub const SIGCHLD: u8 = 17;

/// The highest signal.
pub const SIGNAL_MAX: u8 = 64;

/// Whether a number is that of a signal.
pub open spec fn is_signal(number: int) -> bool {
    1 <= number <= SIGNAL_MAX
}

/// The signal of a number, if it is one.
pub fn signal_from_number(number: u8) -> (signal: Option<u8>)
    ensures
        signal == (if is_signal(number as int) {
            Some(number)
        } else {
            None
        }),
{
    if 1 <= number && number <= SIGNAL_MAX {
        Some(number)
    } else {
        None
    }
}

/// What a user task runs with: its registers, where it goes on, and the status word.
#[derive(Clone, Copy, Debug, Eq, PartialEq, Structural)]
pub struct UserContext {
    pub regs: UserGeneralRegs,
    pub sepc: usize,
    pub sstatus: usize,
}

impl UserContext {
    /// A context that begins at `entry` with the stack `ustack_top` and one argument.
    /// `sstatus` is the status word with which user space is entered.
    pub open spec fn fresh(
        entry: usize,
        ustack_top: usize,
        arg0: usize,
        sstatus: usize,
    ) -> UserContext {
        UserContext {
            regs: UserGeneralRegs { sp: ustack_top, a0: arg0, ..UserGeneralRegs::zeroed() },
            sepc: entry,
            sstatus,
        }
    }

    /// Makes a context that begins at `entry` with the stack `ustack_top` and one argument.
    pub fn new(entry: usize, ustack_top: usize, arg0: usize, sstatus: usize) -> (context: Self)
        ensures
            context == UserContext::fresh(entry, ustack_top, arg0, sstatus),
    {
        let mut regs: UserGeneralRegs = UserGeneralRegs::default();
        regs.sp = ustack_top;
        regs.a0 = arg0;
        UserContext { regs, sepc: entry, sstatus }
    }
}

/// The context in which a system call is carried out: all the registers of the frame, with
/// the instruction after the call to go on at.
pub open spec fn syscall_context_of(frame: UserTrapFrame, sstatus: usize) -> UserContext {
    UserContext { regs: frame.regs, sepc: (frame.sepc + 4) as usize, sstatus }
}

/// Makes the context in which a system call is carried out.
pub fn syscall_context(frame: &UserTrapFrame, sstatus: usize) -> (context: UserContext)
    requires
        frame.sepc + 4 <= usize::MAX,
    ensures
        context == syscall_context_of(*frame, sstatus),
{
    let mut context: UserContext = UserContext::new(
        frame.sepc + 4,
        frame.regs.sp,
        frame.regs.a0,
        sstatus,
    );
    context.regs = frame.regs;
    context
}

/// The frame of a task after a system call: its result, the second result register, the stack
/// pointer, where the task goes on, and the status word are those of the call. A call that
/// replaces the program gives the task another stack.
pub open spec fn frame_after_syscall(frame: UserTrapFrame, context: UserContext) -> UserTrapFrame {
    UserTrapFrame {
        regs: UserGeneralRegs {
            a0: context.regs.a0,
            a1: context.regs.a1,
            sp: context.regs.sp,
            ..frame.regs
        },
        sepc: context.sepc,
        sstatus: context.sstatus,
        ..frame
    }
}

/// Writes what a system call gave back to the frame.
pub fn finish_syscall(frame: &mut UserTrapFrame, context: &UserContext)
    ensures
        *final(frame) == frame_after_syscall(*old(frame), *context),
{
    frame.regs.a0 = context.regs.a0;
    frame.regs.a1 = context.regs.a1;
    frame.regs.sp = context.regs.sp;
    frame.sepc = context.sepc;
    frame.sstatus = context.sstatus;
}

/// A system call changes no register that a call preserves, but for the stack pointer where it
/// gives another, and a call that leaves its context as it found it lets the task go on after
/// the instruction that made it, with all its registers as they were.
pub proof fn law_syscall_preserves_registers(
    frame: UserTrapFrame,
    context: UserContext,
    sstatus: usize,
)
    requires
        frame.sepc + 4 <= usize::MAX,
    ensures
        frame_after_syscall(frame, context).regs.same_across_call(
            UserGeneralRegs { sp: context.regs.sp, ..frame.regs },
        ),
        frame_after_syscall(frame, syscall_context_of(frame, sstatus)).regs == frame.regs,
        frame_after_syscall(frame, syscall_context_of(frame, sstatus)).sepc == frame.sepc + 4,
{
}

} // verus!
