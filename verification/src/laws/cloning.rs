//! Making threads and processes.

use vstd::prelude::*;

use crate::laws::order::{
    in_order, in_order_within, lemma_in_one, lemma_in_parts, lemma_in_three, lemma_in_two,
    lemma_order_of_parts,
};
use crate::sched::trapframe::UserGeneralRegs;
use crate::syscall::clone::{
    clone_actions, clone_failed, clone_flags, process_actions, setup_actions, sys_clone, sys_fork,
    vdso_areas_to_unmap, vsched_actions, areas_within, CloneAction, CloneFlags, NewTask,
};
use crate::syscall::context::{SysError, UserContext};

verus! {

proof fn lemma_bits(raw: u32)
    ensures
        ({
            let flags = clone_flags(raw);
            let thread = 0x10000u32 | 0x8000u32;
            let shared = 0x100u32 | 0x800u32;
            let places = 0x1000u32 | 0x100000u32;
            &&& (flags & 0x100 == 0x100) == (raw & 0x100 != 0 && raw & 0x4000 == 0)
            &&& (flags & 0x200 == 0x200) == (raw & 0x200 != 0)
            &&& (flags & 0x400 == 0x400) == (raw & 0x400 != 0)
            &&& (flags & 0x800 == 0x800) == (raw & 0x800 != 0)
            &&& (flags & 0x1000 == 0x1000) == (raw & 0x1000 != 0)
            &&& (flags & 0x8000 == 0x8000) == (raw & 0x8000 != 0)
            &&& (flags & 0x10000 == 0x10000) == (raw & 0x10000 != 0)
            &&& (flags & 0x80000 == 0x80000) == (raw & 0x80000 != 0)
            &&& (flags & 0x100000 == 0x100000) == (raw & 0x100000 != 0)
            &&& (flags & 0x200000 == 0x200000) == (raw & 0x200000 != 0)
            &&& (flags & 0x1000000 == 0x1000000) == (raw & 0x1000000 != 0)
            &&& (flags & thread == thread) == (raw & 0x10000 != 0 && raw & 0x8000 != 0)
            &&& (flags & shared == shared) == (raw & 0x100 != 0 && raw & 0x4000 == 0 && raw & 0x800
                != 0)
            &&& (flags & places == places) == (raw & 0x1000 != 0 && raw & 0x100000 != 0)
        }),
{
    let known = (raw & !0xffu32) & 0xffbfff00u32;
    let flags = if known & 0x4000 == 0x4000 {
        known & !0x100u32
    } else {
        known
    };
    assert(flags == clone_flags(raw));
    assert({
        let thread = 0x10000u32 | 0x8000u32;
        let shared = 0x100u32 | 0x800u32;
        let places = 0x1000u32 | 0x100000u32;
        &&& (flags & 0x100 == 0x100) == (raw & 0x100 != 0 && raw & 0x4000 == 0)
        &&& (flags & 0x200 == 0x200) == (raw & 0x200 != 0)
        &&& (flags & 0x400 == 0x400) == (raw & 0x400 != 0)
        &&& (flags & 0x800 == 0x800) == (raw & 0x800 != 0)
        &&& (flags & 0x1000 == 0x1000) == (raw & 0x1000 != 0)
        &&& (flags & 0x8000 == 0x8000) == (raw & 0x8000 != 0)
        &&& (flags & 0x10000 == 0x10000) == (raw & 0x10000 != 0)
        &&& (flags & 0x80000 == 0x80000) == (raw & 0x80000 != 0)
        &&& (flags & 0x100000 == 0x100000) == (raw & 0x100000 != 0)
        &&& (flags & 0x200000 == 0x200000) == (raw & 0x200000 != 0)
        &&& (flags & 0x1000000 == 0x1000000) == (raw & 0x1000000 != 0)
        &&& (flags & thread == thread) == (raw & 0x10000 != 0 && raw & 0x8000 != 0)
        &&& (flags & shared == shared) == (raw & 0x100 != 0 && raw & 0x4000 == 0 && raw & 0x800
            != 0)
        &&& (flags & places == places) == (raw & 0x1000 != 0 && raw & 0x100000 != 0)
    }) by (bit_vector)
        requires
            known == (raw & !0xffu32) & 0xffbfff00u32,
            flags == (if known & 0x4000 == 0x4000 {
                known & !0x100u32
            } else {
                known
            }),
    ;
}

/// A clone is refused exactly if it asks for a thread that has its maker's parent and a signal
/// for its exit, for a thread that does not share memory and signal handlers, or for two
/// results in one place. A child that its parent waits for does not share memory.
pub proof fn law_clone_is_refused_for_these_flags(
    context: UserContext,
    flags: u32,
    stack: usize,
    parent_tid: usize,
    tls: usize,
    child_tid: usize,
    vsched2: bool,
    r: Result<(NewTask, Vec<CloneAction>), SysError>,
)
    requires
        call_ensures(
            sys_clone,
            (&context, flags, stack, parent_tid, tls, child_tid, vsched2),
            r,
        ),
    ensures
        ({
            let thread = flags & 0x10000 != 0;
            let memory = flags & 0x100 != 0 && flags & 0x4000 == 0;
            r is Err <==> {
                ||| flags & 0xff != 0 && thread && flags & 0x8000 != 0
                ||| thread && !(memory && flags & 0x800 != 0)
                ||| flags & 0x1000 != 0 && flags & 0x100000 != 0
            }
        }),
        r matches Err(e) ==> e == SysError::InvalidInput,
{
    lemma_bits(flags);
}

/// A child begins with the registers of its maker, but for the result of the call, which is 0,
/// and for the stack and the thread local storage, where it was given others. It writes its ID,
/// and has it cleared, exactly where and if the flags say so, whether it is a thread or a
/// process.
pub proof fn law_child_begins_as_it_was_asked_for(
    context: UserContext,
    flags: u32,
    stack: usize,
    parent_tid: usize,
    tls: usize,
    child_tid: usize,
    vsched2: bool,
    r: Result<(NewTask, Vec<CloneAction>), SysError>,
)
    requires
        call_ensures(
            sys_clone,
            (&context, flags, stack, parent_tid, tls, child_tid, vsched2),
            r,
        ),
    ensures
        r matches Ok(made) ==> {
            &&& flags & 0x1000000 != 0 ==> made.0.set_child_tid == child_tid
            &&& flags & 0x1000000 == 0 ==> made.0.set_child_tid == 0
            &&& flags & 0x200000 != 0 ==> made.0.clear_child_tid == Some(child_tid)
            &&& flags & 0x200000 == 0 ==> made.0.clear_child_tid is None
            &&& made.0.exit_signal is Some <==> 1 <= flags & 0xff <= 64
            &&& made.0.exit_signal matches Some(signo) ==> signo as u32 == flags & 0xff
            &&& made.0.context.sepc == context.sepc
            &&& made.0.context.sstatus == context.sstatus
            &&& made.0.context.regs.a0 == 0
            &&& stack != 0 ==> made.0.context.regs.sp == stack
            &&& stack == 0 ==> made.0.context.regs.sp == context.regs.sp
            &&& flags & 0x80000 != 0 ==> made.0.context.regs.tp == tls
            &&& flags & 0x80000 == 0 ==> made.0.context.regs.tp == context.regs.tp
            &&& made.0.context.regs == (UserGeneralRegs {
                a0: made.0.context.regs.a0,
                sp: made.0.context.regs.sp,
                tp: made.0.context.regs.tp,
                ..context.regs
            })
        },
{
    lemma_bits(flags);
    assert(flags & 0xff < 256) by (bit_vector);
}

/// The order in which a task is made.
pub open spec fn clone_rank(action: CloneAction) -> int {
    match action {
        CloneAction::NewTask => 0,
        CloneAction::WriteParentTid { .. } => 1,
        CloneAction::FindParent => 2,
        CloneAction::Fork { .. } => 3,
        CloneAction::ShareAspace => 4,
        CloneAction::CopyAspace => 5,
        CloneAction::CopyKernelMappings => 6,
        CloneAction::SetPageTable => 7,
        CloneAction::ShareSignalActions => 8,
        CloneAction::CopySignalActions => 9,
        CloneAction::NewProcessData => 10,
        CloneAction::InheritUmask => 11,
        CloneAction::InheritHeapTop => 12,
        CloneAction::ShareFiles => 13,
        CloneAction::CopyFiles => 14,
        CloneAction::ShareFs => 15,
        CloneAction::CopyFs => 16,
        CloneAction::AddThread => 17,
        CloneAction::NewPidFd => 18,
        CloneAction::WritePidFd { .. } => 19,
        CloneAction::NewThread => 20,
        CloneAction::SetClearChildTid { .. } => 21,
        CloneAction::NewVschedTask => 22,
        CloneAction::UnmapVdso => 23,
        CloneAction::MapVdso => 24,
        CloneAction::PublishVdsoBase => 25,
        CloneAction::ProcessInit => 26,
        CloneAction::BindProcessId => 27,
        CloneAction::SetPid => 28,
        CloneAction::UserInit => 29,
        CloneAction::RegisterUserTask => 30,
        CloneAction::PushTask => 31,
        CloneAction::SpawnTask => 32,
        CloneAction::AddToTable => 33,
    }
}

/// Whether an action belongs to what is done for a child.
pub open spec fn clone_does(
    flags: u32,
    parent_tid: usize,
    child_tid: usize,
    vsched2: bool,
    action: CloneAction,
) -> bool {
    let thread = flags & 0x10000 != 0;
    let memory = flags & 0x100 != 0 && flags & 0x4000 == 0;
    match action {
        CloneAction::NewTask | CloneAction::SetPageTable | CloneAction::AddThread
        | CloneAction::NewThread | CloneAction::AddToTable => true,
        CloneAction::WriteParentTid { at } => flags & 0x100000 != 0 && at == parent_tid,
        CloneAction::NewPidFd => flags & 0x1000 != 0,
        CloneAction::WritePidFd { at } => flags & 0x1000 != 0 && at == parent_tid,
        CloneAction::SetClearChildTid { at } => flags & 0x200000 != 0 && at == child_tid,
        CloneAction::FindParent => !thread && flags & 0x8000 != 0,
        CloneAction::Fork { from_parent } => !thread && from_parent == (flags & 0x8000 != 0),
        CloneAction::ShareAspace => !thread && memory,
        CloneAction::CopyAspace | CloneAction::CopyKernelMappings => !thread && !memory,
        CloneAction::ShareSignalActions => !thread && flags & 0x800 != 0,
        CloneAction::CopySignalActions => !thread && flags & 0x800 == 0,
        CloneAction::NewProcessData | CloneAction::InheritUmask
        | CloneAction::InheritHeapTop => !thread,
        CloneAction::ShareFiles => !thread && flags & 0x400 != 0,
        CloneAction::CopyFiles => !thread && flags & 0x400 == 0,
        CloneAction::ShareFs => !thread && flags & 0x200 != 0,
        CloneAction::CopyFs => !thread && flags & 0x200 == 0,
        CloneAction::NewVschedTask | CloneAction::SetPid | CloneAction::RegisterUserTask
        | CloneAction::PushTask => vsched2,
        CloneAction::UnmapVdso | CloneAction::MapVdso => vsched2 && !thread && !memory,
        CloneAction::PublishVdsoBase | CloneAction::ProcessInit | CloneAction::BindProcessId
        | CloneAction::UserInit => vsched2 && !thread,
        CloneAction::SpawnTask => !vsched2,
    }
}

proof fn lemma_process_part(raw: u32, action: CloneAction)
    ensures
        ({
            let process = process_actions(clone_flags(raw));
            &&& in_order_within(process, |a: CloneAction| clone_rank(a), 2, 17)
            &&& raw & 0x10000 == 0 ==> (process.contains(action) <==> 2 <= clone_rank(action) < 17
                && clone_does(raw, 0, 0, true, action))
        }),
{
    lemma_bits(raw);
    let flags = clone_flags(raw);
    let rank = |a: CloneAction| clone_rank(a);
    let parent = if raw & 0x8000 != 0 {
        seq![CloneAction::FindParent, CloneAction::Fork { from_parent: true }]
    } else {
        seq![CloneAction::Fork { from_parent: false }]
    };
    let aspace = if raw & 0x100 != 0 && raw & 0x4000 == 0 {
        seq![CloneAction::ShareAspace]
    } else {
        seq![CloneAction::CopyAspace, CloneAction::CopyKernelMappings]
    };
    let signals = if raw & 0x800 != 0 {
        CloneAction::ShareSignalActions
    } else {
        CloneAction::CopySignalActions
    };
    let files = if raw & 0x400 != 0 {
        CloneAction::ShareFiles
    } else {
        CloneAction::CopyFiles
    };
    let fs = if raw & 0x200 != 0 {
        CloneAction::ShareFs
    } else {
        CloneAction::CopyFs
    };
    let rest = seq![
        CloneAction::SetPageTable,
        signals,
        CloneAction::NewProcessData,
        CloneAction::InheritUmask,
        CloneAction::InheritHeapTop,
        files,
        fs,
    ];
    assert(process_actions(flags) == parent + aspace + rest);
    lemma_in_parts(parent + aspace, rest, action);
    lemma_in_parts(parent, aspace, action);
    lemma_in_one(CloneAction::Fork { from_parent: false }, action);
    lemma_in_two(CloneAction::FindParent, CloneAction::Fork { from_parent: true }, action);
    lemma_in_one(CloneAction::ShareAspace, action);
    lemma_in_two(CloneAction::CopyAspace, CloneAction::CopyKernelMappings, action);
    assert(rest[0] == CloneAction::SetPageTable && rest[1] == signals && rest[2]
        == CloneAction::NewProcessData && rest[3] == CloneAction::InheritUmask && rest[4]
        == CloneAction::InheritHeapTop && rest[5] == files && rest[6] == fs);
    assert(rest.contains(action) <==> action == CloneAction::SetPageTable || action == signals
        || action == CloneAction::NewProcessData || action == CloneAction::InheritUmask || action
        == CloneAction::InheritHeapTop || action == files || action == fs);
    assert(in_order_within(parent, rank, 2, 4));
    assert(in_order_within(aspace, rank, 4, 7));
    assert(in_order_within(rest, rank, 7, 17));
    lemma_order_of_parts(parent, aspace, rank, 2, 4, 7);
    lemma_order_of_parts(parent + aspace, rest, rank, 2, 7, 17);
}

proof fn lemma_setup_part(raw: u32, parent_tid: usize, child_tid: usize, action: CloneAction)
    ensures
        ({
            let setup = setup_actions(clone_flags(raw), parent_tid, child_tid);
            &&& in_order_within(setup, |a: CloneAction| clone_rank(a), 0, 22)
            &&& setup.contains(action) <==> clone_rank(action) < 22 && clone_does(
                raw,
                parent_tid,
                child_tid,
                true,
                action,
            )
        }),
{
    lemma_bits(raw);
    lemma_process_part(raw, action);
    let flags = clone_flags(raw);
    let rank = |a: CloneAction| clone_rank(a);
    let ids = if raw & 0x100000 != 0 {
        seq![CloneAction::NewTask, CloneAction::WriteParentTid { at: parent_tid }]
    } else {
        seq![CloneAction::NewTask]
    };
    let process = if raw & 0x10000 != 0 {
        seq![CloneAction::SetPageTable]
    } else {
        process_actions(flags)
    };
    let add = seq![CloneAction::AddThread];
    let pidfd = if raw & 0x1000 != 0 {
        seq![CloneAction::NewPidFd, CloneAction::WritePidFd { at: parent_tid }]
    } else {
        Seq::<CloneAction>::empty()
    };
    let clear = if raw & 0x200000 != 0 {
        seq![CloneAction::NewThread, CloneAction::SetClearChildTid { at: child_tid }]
    } else {
        seq![CloneAction::NewThread]
    };
    assert(setup_actions(flags, parent_tid, child_tid) == ids + process + add + pidfd + clear);
    lemma_in_parts(ids + process + add + pidfd, clear, action);
    lemma_in_parts(ids + process + add, pidfd, action);
    lemma_in_parts(ids + process, add, action);
    lemma_in_parts(ids, process, action);
    lemma_in_one(CloneAction::NewTask, action);
    lemma_in_two(CloneAction::NewTask, CloneAction::WriteParentTid { at: parent_tid }, action);
    lemma_in_one(CloneAction::SetPageTable, action);
    lemma_in_one(CloneAction::AddThread, action);
    lemma_in_two(CloneAction::NewPidFd, CloneAction::WritePidFd { at: parent_tid }, action);
    lemma_in_one(CloneAction::NewThread, action);
    lemma_in_two(
        CloneAction::NewThread,
        CloneAction::SetClearChildTid { at: child_tid },
        action,
    );
    assert(in_order_within(ids, rank, 0, 2));
    assert(in_order_within(process, rank, 2, 17));
    assert(in_order_within(add, rank, 17, 18));
    assert(in_order_within(pidfd, rank, 18, 20));
    assert(in_order_within(clear, rank, 20, 22));
    lemma_order_of_parts(ids, process, rank, 0, 2, 17);
    lemma_order_of_parts(ids + process, add, rank, 0, 17, 18);
    lemma_order_of_parts(ids + process + add, pidfd, rank, 0, 18, 20);
    lemma_order_of_parts(ids + process + add + pidfd, clear, rank, 0, 20, 22);
}

proof fn lemma_vsched_part(raw: u32, action: CloneAction)
    ensures
        ({
            let vsched = vsched_actions(clone_flags(raw));
            &&& in_order_within(vsched, |a: CloneAction| clone_rank(a), 22, 34)
            &&& vsched.contains(action) <==> clone_rank(action) >= 22 && clone_does(
                raw,
                0,
                0,
                true,
                action,
            )
        }),
{
    lemma_bits(raw);
    let rank = |a: CloneAction| clone_rank(a);
    let new = seq![CloneAction::NewVschedTask];
    let vdso = if raw & 0x100 != 0 && raw & 0x4000 == 0 {
        Seq::<CloneAction>::empty()
    } else {
        seq![CloneAction::UnmapVdso, CloneAction::MapVdso]
    };
    let entry = seq![
        CloneAction::PublishVdsoBase,
        CloneAction::ProcessInit,
        CloneAction::BindProcessId,
        CloneAction::SetPid,
        CloneAction::UserInit,
    ];
    let process = if raw & 0x10000 != 0 {
        seq![CloneAction::SetPid]
    } else {
        vdso + entry
    };
    let last = seq![
        CloneAction::RegisterUserTask,
        CloneAction::PushTask,
        CloneAction::AddToTable,
    ];
    assert(vsched_actions(clone_flags(raw)) == new + process + last);
    lemma_in_parts(new + process, last, action);
    lemma_in_parts(new, process, action);
    lemma_in_parts(vdso, entry, action);
    lemma_in_one(CloneAction::NewVschedTask, action);
    lemma_in_one(CloneAction::SetPid, action);
    lemma_in_two(CloneAction::UnmapVdso, CloneAction::MapVdso, action);
    lemma_in_three(
        CloneAction::RegisterUserTask,
        CloneAction::PushTask,
        CloneAction::AddToTable,
        action,
    );
    assert(entry[0] == CloneAction::PublishVdsoBase && entry[1] == CloneAction::ProcessInit
        && entry[2] == CloneAction::BindProcessId && entry[3] == CloneAction::SetPid && entry[4]
        == CloneAction::UserInit);
    assert(entry.contains(action) <==> action == CloneAction::PublishVdsoBase || action
        == CloneAction::ProcessInit || action == CloneAction::BindProcessId || action
        == CloneAction::SetPid || action == CloneAction::UserInit);
    assert(in_order_within(new, rank, 22, 23));
    assert(in_order_within(vdso, rank, 23, 25));
    assert(in_order_within(entry, rank, 25, 30));
    lemma_order_of_parts(vdso, entry, rank, 23, 25, 30);
    assert(in_order_within(process, rank, 23, 30));
    assert(in_order_within(last, rank, 30, 34));
    lemma_order_of_parts(new, process, rank, 22, 23, 30);
    lemma_order_of_parts(new + process, last, rank, 22, 30, 34);
}

/// What is done for a child is what the flags ask for, each once, and in order. A thread gets
/// no process, memory, signal handlers or files of its own, and no entry of the scheduler; a
/// process shares each of these exactly if a flag says so.
pub proof fn law_child_is_made_as_it_was_asked_for(
    context: UserContext,
    flags: u32,
    stack: usize,
    parent_tid: usize,
    tls: usize,
    child_tid: usize,
    vsched2: bool,
    r: Result<(NewTask, Vec<CloneAction>), SysError>,
    action: CloneAction,
)
    requires
        call_ensures(
            sys_clone,
            (&context, flags, stack, parent_tid, tls, child_tid, vsched2),
            r,
        ),
    ensures
        r matches Ok(made) ==> {
            &&& made.1@.contains(action) <==> clone_does(
                flags,
                parent_tid,
                child_tid,
                vsched2,
                action,
            )
            &&& in_order(made.1@, |a: CloneAction| clone_rank(a))
        },
{
    let rank = |a: CloneAction| clone_rank(a);
    lemma_setup_part(flags, parent_tid, child_tid, action);
    lemma_vsched_part(flags, action);
    let setup = setup_actions(clone_flags(flags), parent_tid, child_tid);
    let raw = seq![CloneAction::SpawnTask, CloneAction::AddToTable];
    lemma_in_two(CloneAction::SpawnTask, CloneAction::AddToTable, action);
    assert(in_order_within(raw, rank, 22, 34));
    let given = if vsched2 {
        vsched_actions(clone_flags(flags))
    } else {
        raw
    };
    assert(clone_actions(clone_flags(flags), parent_tid, child_tid, vsched2) == setup + given);
    lemma_in_parts(setup, given, action);
    lemma_order_of_parts(setup, given, rank, 0, 22, 34);
}

/// A fork makes a process that shares nothing with its maker, whose parent is told of its end
/// by the signal 17, and which goes on where its maker does, with 0 as the result.
pub proof fn law_fork_makes_a_process_of_its_own(
    context: UserContext,
    vsched2: bool,
    made: (NewTask, Vec<CloneAction>),
    action: CloneAction,
)
    requires
        call_ensures(sys_fork, (&context, vsched2), made),
    ensures
        made.0.context.regs == (UserGeneralRegs { a0: 0, ..context.regs }),
        made.0.context.sepc == context.sepc,
        made.0.context.sstatus == context.sstatus,
        made.0.set_child_tid == 0,
        made.0.clear_child_tid is None,
        made.0.exit_signal == Some(17u8),
        made.1@.contains(action) <==> clone_does(17, 0, 0, vsched2, action),
        in_order(made.1@, |a: CloneAction| clone_rank(a)),
{
    assert((17u32 & !0xffu32) & 0xffbfff00u32 == 0 && 0u32 & 0x4000 != 0x4000) by (bit_vector);
    assert(clone_flags(17) == 0);
    let rank = |a: CloneAction| clone_rank(a);
    lemma_setup_part(17, 0, 0, action);
    lemma_vsched_part(17, action);
    let setup = setup_actions(0, 0, 0);
    let raw = seq![CloneAction::SpawnTask, CloneAction::AddToTable];
    lemma_in_two(CloneAction::SpawnTask, CloneAction::AddToTable, action);
    assert(in_order_within(raw, rank, 22, 34));
    let given = if vsched2 {
        vsched_actions(0)
    } else {
        raw
    };
    assert(clone_actions(0, 0, 0, vsched2) == setup + given);
    lemma_in_parts(setup, given, action);
    lemma_order_of_parts(setup, given, rank, 0, 22, 34);
}

/// Of what is done for a child, only the write of its ID to its maker's memory and its way into
/// a queue may fail without the call failing; a maker without a parent makes the call invalid.
pub proof fn law_failures_of_a_clone_are_returned(
    action: CloneAction,
    error: SysError,
    r: Option<SysError>,
)
    requires
        call_ensures(clone_failed, (action, error), r),
    ensures
        r is None <==> action is WriteParentTid || action is PushTask,
        action is FindParent ==> r == Some(SysError::InvalidInput),
        r is Some && !(action is FindParent) ==> r == Some(error),
{
}

proof fn lemma_areas(areas: Seq<(usize, usize)>, start: int, end: int, n: nat, area: (usize, usize))
    requires
        n <= areas.len(),
        forall|i: int| 0 <= i < areas.len() ==> (#[trigger] areas[i]).0 <= areas[i].1,
    ensures
        areas_within(areas, start, end, n).contains(area) <==> exists|i: int|
            0 <= i < n && (#[trigger] areas[i]).0 == area.0 && areas[i].1 == area.0 + area.1
                && start <= area.0 && area.0 + area.1 <= end,
    decreases n,
{
    if n > 0 {
        let m = (n - 1) as nat;
        lemma_areas(areas, start, end, m, area);
        let before = areas_within(areas, start, end, m);
        let (s, e) = areas[n - 1];
        if s >= start && e <= end {
            lemma_in_parts(before, seq![(s, (e - s) as usize)], area);
            assert(before.push((s, (e - s) as usize)) =~= before + seq![(s, (e - s) as usize)]);
            lemma_in_one((s, (e - s) as usize), area);
            if area == (s, (e - s) as usize) {
                assert(areas[n - 1].0 == area.0 && areas[n - 1].1 == area.0 + area.1);
            }
        }
    }
}

/// The areas that are unmapped are exactly those that lie between the beginning of the shared
/// data and the end of the shared object.
pub proof fn law_exactly_the_objects_areas_are_unmapped(
    areas: Vec<(usize, usize)>,
    vdso_base: usize,
    vvar_size: usize,
    vdso_size: usize,
    unmap: Vec<(usize, usize)>,
    area: (usize, usize),
)
    requires
        call_ensures(vdso_areas_to_unmap, (&areas, vdso_base, vvar_size, vdso_size), unmap),
        forall|i: int| 0 <= i < areas@.len() ==> (#[trigger] areas@[i]).0 <= areas@[i].1,
    ensures
        unmap@.contains(area) <==> exists|i: int|
            0 <= i < areas@.len() && (#[trigger] areas@[i]).0 == area.0 && areas@[i].1 == area.0
                + area.1 && vdso_base - vvar_size <= area.0 && area.0 + area.1 <= vdso_base
                + vdso_size,
{
    lemma_areas(
        areas@,
        vdso_base - vvar_size,
        vdso_base + vdso_size,
        areas@.len(),
        area,
    );
}


/// The flags of a call are the known bits above the signal, without the sharing of memory if
/// the parent waits; flags contain others if they have all their bits.
pub proof fn law_flags_are_the_known_bits(raw: u32, flags: CloneFlags, wanted: u32, has: bool)
    requires
        call_ensures(CloneFlags::from_argument, (raw,), flags),
        call_ensures(CloneFlags::contains, (&flags, wanted), has),
    ensures
        has <==> flags.bits & wanted == wanted,
        raw & 0x4000 == 0 ==> flags.bits == raw & 0xffbfff00,
        raw & 0x4000 != 0 ==> flags.bits == raw & 0xffbffe00,
{
    let bits = flags.bits;
    let known = (raw & !0xffu32) & 0xffbfff00u32;
    assert(bits == (if known & 0x4000 == 0x4000 {
        known & !0x100u32
    } else {
        known
    }));
    assert((raw & 0x4000 == 0 ==> bits == raw & 0xffbfff00) && (raw & 0x4000 != 0 ==> bits == raw
        & 0xffbffe00)) by (bit_vector)
        requires
            known == (raw & !0xffu32) & 0xffbfff00u32,
            bits == (if known & 0x4000 == 0x4000 {
                known & !0x100u32
            } else {
                known
            }),
    ;
}

} // verus!
