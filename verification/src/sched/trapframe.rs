//! The frame in which a task's registers are kept, and what a CPU holds once a frame is
//! restored.
//!
//! The frame begins with the 32 general registers, 8 bytes each, in the order of their
//! numbers. At 256 follow `sepc`, `sstatus`, `scause`, `stval` and the frame's kind.
//!
//! - `restore_and_sret` leaves the kernel: it loads every register, `sepc` and `sstatus`.
//! - `restore_and_jump` stays at the same privilege. Of a frame that a task made when it
//!   yielded it loads what a call preserves. Of one that a trap made it loads every
//!   register, reads `sepc` again from the frame, which the registers never touch, and
//!   jumps there by way of `t0`.

use vstd::prelude::*;

verus! {

/// The general registers.
#[derive(Clone, Copy, Debug, Eq, PartialEq, Structural)]
pub struct UserGeneralRegs {
    pub zero: usize,
    pub ra: usize,
    pub sp: usize,
    pub gp: usize,
    pub tp: usize,
    pub t0: usize,
    pub t1: usize,
    pub t2: usize,
    pub s0: usize,
    pub s1: usize,
    pub a0: usize,
    pub a1: usize,
    pub a2: usize,
    pub a3: usize,
    pub a4: usize,
    pub a5: usize,
    pub a6: usize,
    pub a7: usize,
    pub s2: usize,
    pub s3: usize,
    pub s4: usize,
    pub s5: usize,
    pub s6: usize,
    pub s7: usize,
    pub s8: usize,
    pub s9: usize,
    pub s10: usize,
    pub s11: usize,
    pub t3: usize,
    pub t4: usize,
    pub t5: usize,
    pub t6: usize,
}

impl UserGeneralRegs {
    /// Every register 0.
    pub open spec fn zeroed() -> UserGeneralRegs {
        UserGeneralRegs {
            zero: 0,
            ra: 0,
            sp: 0,
            gp: 0,
            tp: 0,
            t0: 0,
            t1: 0,
            t2: 0,
            s0: 0,
            s1: 0,
            a0: 0,
            a1: 0,
            a2: 0,
            a3: 0,
            a4: 0,
            a5: 0,
            a6: 0,
            a7: 0,
            s2: 0,
            s3: 0,
            s4: 0,
            s5: 0,
            s6: 0,
            s7: 0,
            s8: 0,
            s9: 0,
            s10: 0,
            s11: 0,
            t3: 0,
            t4: 0,
            t5: 0,
            t6: 0,
        }
    }

    /// Whether the registers that a call preserves, the stack pointer and the return
    /// address are those of `other`.
    pub open spec fn same_across_call(self, other: UserGeneralRegs) -> bool {
        &&& self.ra == other.ra
        &&& self.sp == other.sp
        &&& self.s0 == other.s0
        &&& self.s1 == other.s1
        &&& self.s2 == other.s2
        &&& self.s3 == other.s3
        &&& self.s4 == other.s4
        &&& self.s5 == other.s5
        &&& self.s6 == other.s6
        &&& self.s7 == other.s7
        &&& self.s8 == other.s8
        &&& self.s9 == other.s9
        &&& self.s10 == other.s10
        &&& self.s11 == other.s11
    }
}

impl Default for UserGeneralRegs {
    fn default() -> (regs: Self)
        ensures
            regs == UserGeneralRegs::zeroed(),
    {
        UserGeneralRegs {
            zero: 0,
            ra: 0,
            sp: 0,
            gp: 0,
            tp: 0,
            t0: 0,
            t1: 0,
            t2: 0,
            s0: 0,
            s1: 0,
            a0: 0,
            a1: 0,
            a2: 0,
            a3: 0,
            a4: 0,
            a5: 0,
            a6: 0,
            a7: 0,
            s2: 0,
            s3: 0,
            s4: 0,
            s5: 0,
            s6: 0,
            s7: 0,
            s8: 0,
            s9: 0,
            s10: 0,
            s11: 0,
            t3: 0,
            t4: 0,
            t5: 0,
            t6: 0,
        }
    }
}

/// How a frame came about.
#[derive(Clone, Copy, Debug, Eq, PartialEq, Structural)]
pub enum UserTrapFrameKind {
    /// The task yielded: only what a call preserves is valid.
    Yield,
    /// The task was interrupted: every register, `sepc`, `sstatus`, `scause` and `stval`
    /// are valid.
    Trap,
}

/// A task's registers.
#[derive(Clone, Copy, Debug, Eq, PartialEq, Structural)]
pub struct UserTrapFrame {
    pub regs: UserGeneralRegs,
    pub sepc: usize,
    pub sstatus: usize,
    pub scause: usize,
    pub stval: usize,
    pub kind: UserTrapFrameKind,
}

/// What a CPU holds when it goes on: its registers, where it goes on, and the status
/// word if that was loaded too.
#[derive(Clone, Copy, Debug, Eq, PartialEq, Structural)]
pub struct ResumePoint {
    pub regs: UserGeneralRegs,
    pub pc: usize,
    pub sstatus: Option<usize>,
    /// The page table register, if that was loaded too.
    pub satp: Option<usize>,
}

/// The bytes of a frame: 37 words of 8 bytes.
pub const TRAP_FRAME_SIZE: usize = 296;

impl UserTrapFrame {
    /// The frame that a task makes when it yields with the registers `live`, to go on at
    /// its return address. Words that a yield does not write are what they were in
    /// `stack`, the memory below the task's stack pointer.
    pub open spec fn yielded(live: UserGeneralRegs, stack: UserTrapFrame) -> UserTrapFrame {
        UserTrapFrame {
            regs: UserGeneralRegs {
                ra: live.ra,
                sp: live.sp,
                s0: live.s0,
                s1: live.s1,
                s2: live.s2,
                s3: live.s3,
                s4: live.s4,
                s5: live.s5,
                s6: live.s6,
                s7: live.s7,
                s8: live.s8,
                s9: live.s9,
                s10: live.s10,
                s11: live.s11,
                ..stack.regs
            },
            kind: UserTrapFrameKind::Yield,
            ..stack
        }
    }

    /// The frame that a trap makes of a CPU with the registers `live`.
    pub open spec fn trapped(
        live: UserGeneralRegs,
        sepc: usize,
        sstatus: usize,
        scause: usize,
        stval: usize,
    ) -> UserTrapFrame {
        UserTrapFrame {
            regs: UserGeneralRegs { zero: 0, ..live },
            sepc,
            sstatus,
            scause,
            stval,
            kind: UserTrapFrameKind::Trap,
        }
    }

    /// Saves what a yield saves.
    pub fn save_yield(live: &UserGeneralRegs, stack: &UserTrapFrame) -> (frame: UserTrapFrame)
        ensures
            frame == UserTrapFrame::yielded(*live, *stack),
    {
        let mut frame: UserTrapFrame = *stack;
        frame.regs.ra = live.ra;
        frame.regs.sp = live.sp;
        frame.regs.s0 = live.s0;
        frame.regs.s1 = live.s1;
        frame.regs.s2 = live.s2;
        frame.regs.s3 = live.s3;
        frame.regs.s4 = live.s4;
        frame.regs.s5 = live.s5;
        frame.regs.s6 = live.s6;
        frame.regs.s7 = live.s7;
        frame.regs.s8 = live.s8;
        frame.regs.s9 = live.s9;
        frame.regs.s10 = live.s10;
        frame.regs.s11 = live.s11;
        frame.kind = UserTrapFrameKind::Yield;
        frame
    }

    /// Saves what a trap saves.
    pub fn save_trap(
        live: &UserGeneralRegs,
        sepc: usize,
        sstatus: usize,
        scause: usize,
        stval: usize,
    ) -> (frame: UserTrapFrame)
        ensures
            frame == UserTrapFrame::trapped(*live, sepc, sstatus, scause, stval),
    {
        let mut regs: UserGeneralRegs = *live;
        regs.zero = 0;
        UserTrapFrame { regs, sepc, sstatus, scause, stval, kind: UserTrapFrameKind::Trap }
    }

    /// What a CPU with the registers `live` holds once it has left the kernel with the frame.
    pub open spec fn left(self, live: UserGeneralRegs) -> ResumePoint {
        ResumePoint {
            regs: UserGeneralRegs { zero: live.zero, ..self.regs },
            pc: self.sepc,
            sstatus: Some(self.sstatus),
            satp: None,
        }
    }

    /// Restores a frame on the way from the kernel to user space.
    pub fn restore_and_sret(&self, live: &UserGeneralRegs) -> (resume: ResumePoint)
        ensures
            resume == self.left(*live),
    {
        let mut regs: UserGeneralRegs = self.regs;
        regs.zero = live.zero;
        ResumePoint { regs, pc: self.sepc, sstatus: Some(self.sstatus), satp: None }
    }

    /// Restores a frame on the way to user space, in the address space that is in use.
    pub fn restore_and_sret_user(&self, live: &UserGeneralRegs) -> (resume: ResumePoint)
        ensures
            resume == self.left(*live),
    {
        self.restore_and_sret(live)
    }

    /// Restores a frame on the way to user space, and switches to another address space.
    /// `satp_root` is the page table register of it.
    pub fn restore_and_sret_user_with_satp(&self, live: &UserGeneralRegs, satp_root: usize) -> (
    resume: ResumePoint)
        ensures
            resume == (ResumePoint { satp: Some(satp_root), ..self.left(*live) }),
    {
        let mut resume: ResumePoint = self.restore_and_sret(live);
        resume.satp = Some(satp_root);
        resume
    }

    /// What a CPU with the registers `live` holds once the frame is restored without a
    /// change of privilege.
    pub open spec fn resumed(self, live: UserGeneralRegs) -> ResumePoint {
        match self.kind {
            UserTrapFrameKind::Yield => ResumePoint {
                regs: UserGeneralRegs {
                    ra: self.regs.ra,
                    sp: self.regs.sp,
                    s0: self.regs.s0,
                    s1: self.regs.s1,
                    s2: self.regs.s2,
                    s3: self.regs.s3,
                    s4: self.regs.s4,
                    s5: self.regs.s5,
                    s6: self.regs.s6,
                    s7: self.regs.s7,
                    s8: self.regs.s8,
                    s9: self.regs.s9,
                    s10: self.regs.s10,
                    s11: self.regs.s11,
                    ..live
                },
                pc: self.regs.ra,
                sstatus: None,
                satp: None,
            },
            UserTrapFrameKind::Trap => ResumePoint {
                regs: UserGeneralRegs { zero: live.zero, t0: self.sepc, ..self.regs },
                pc: self.sepc,
                sstatus: None,
                satp: None,
            },
        }
    }

    /// Restores a frame without a change of privilege.
    pub fn restore_and_jump(&self, live: &UserGeneralRegs) -> (resume: ResumePoint)
        ensures
            resume == self.resumed(*live),
    {
        match self.kind {
            UserTrapFrameKind::Yield => {
                let mut regs: UserGeneralRegs = *live;
                regs.ra = self.regs.ra;
                regs.sp = self.regs.sp;
                regs.s0 = self.regs.s0;
                regs.s1 = self.regs.s1;
                regs.s2 = self.regs.s2;
                regs.s3 = self.regs.s3;
                regs.s4 = self.regs.s4;
                regs.s5 = self.regs.s5;
                regs.s6 = self.regs.s6;
                regs.s7 = self.regs.s7;
                regs.s8 = self.regs.s8;
                regs.s9 = self.regs.s9;
                regs.s10 = self.regs.s10;
                regs.s11 = self.regs.s11;
                ResumePoint { regs, pc: regs.ra, sstatus: None, satp: None }
            },
            UserTrapFrameKind::Trap => {
                let mut regs: UserGeneralRegs = self.regs;
                regs.zero = live.zero;
                regs.t0 = self.sepc;
                ResumePoint { regs, pc: regs.t0, sstatus: None, satp: None }
            },
        }
    }
}

/// A task that yielded and is restored from the frame that was saved goes on at its return
/// address, with everything that a call preserves as it was, whatever the registers hold by
/// then.
pub proof fn law_yield_preserves_what_a_call_preserves(
    live: UserGeneralRegs,
    stack: UserTrapFrame,
    later: UserGeneralRegs,
)
    ensures
        UserTrapFrame::yielded(live, stack).resumed(later).regs.same_across_call(live),
        UserTrapFrame::yielded(live, stack).resumed(later).pc == live.ra,
{
}

/// A user task that trapped and is entered from the frame that was saved goes on where it was,
/// with every register and the status word as they were, whatever the registers hold by then.
pub proof fn law_trap_and_return_preserve_everything(
    live: UserGeneralRegs,
    sepc: usize,
    sstatus: usize,
    scause: usize,
    stval: usize,
    later: UserGeneralRegs,
)
    requires
        live.zero == 0,
        later.zero == 0,
    ensures
        UserTrapFrame::trapped(live, sepc, sstatus, scause, stval).left(later) == (ResumePoint {
            regs: live,
            pc: sepc,
            sstatus: Some(sstatus),
            satp: None,
        }),
{
}

/// A task that trapped and is restored on the same privilege goes on where it was, with
/// every register as it was but `t0`, which holds the address that it goes on at.
pub proof fn law_trap_preserves_all_but_t0(
    live: UserGeneralRegs,
    sepc: usize,
    sstatus: usize,
    scause: usize,
    stval: usize,
    later: UserGeneralRegs,
)
    requires
        live.zero == 0,
        later.zero == 0,
    ensures
        UserTrapFrame::trapped(live, sepc, sstatus, scause, stval).resumed(later) == (ResumePoint {
            regs: UserGeneralRegs { t0: sepc, ..live },
            pc: sepc,
            sstatus: None,
            satp: None,
        }),
{
}

} // verus!
