//! Making a task: a thread of the caller's process, or a process of its own.

use vstd::prelude::*;

use crate::sched::trapframe::{UserGeneralRegs, UserTrapFrame};
use crate::syscall::context::{
    is_signal, signal_from_number, syscall_context_of, SysError, UserContext, SIGCHLD,
};

verus! {

/// Caller and child share memory.
pub const CLONE_VM: u32 = 0x100;

/// They share what they know of the file system.
pub const CLONE_FS: u32 = 0x200;

/// They share the table of open files.
pub const CLONE_FILES: u32 = 0x400;

/// They share signal handlers.
pub const CLONE_SIGHAND: u32 = 0x800;

/// The caller gets a file descriptor of the child.
pub const CLONE_PIDFD: u32 = 0x1000;

pub const CLONE_PTRACE: u32 = 0x2000;

/// The caller waits until the child has memory of its own.
pub const CLONE_VFORK: u32 = 0x4000;

/// The child's parent is the caller's.
pub const CLONE_PARENT: u32 = 0x8000;

/// The child is a thread of the caller's process.
pub const CLONE_THREAD: u32 = 0x10000;

pub const CLONE_NEWNS: u32 = 0x20000;

pub const CLONE_SYSVSEM: u32 = 0x40000;

/// The child gets a thread local storage.
pub const CLONE_SETTLS: u32 = 0x80000;

/// The child's ID is written to the caller's memory.
pub const CLONE_PARENT_SETTID: u32 = 0x100000;

/// The child's ID is cleared in its memory when it exits.
pub const CLONE_CHILD_CLEARTID: u32 = 0x200000;

pub const CLONE_UNTRACED: u32 = 0x800000;

/// The child's ID is written to the child's memory.
pub const CLONE_CHILD_SETTID: u32 = 0x1000000;

pub const CLONE_NEWCGROUP: u32 = 0x2000000;

pub const CLONE_NEWUTS: u32 = 0x4000000;

pub const CLONE_NEWIPC: u32 = 0x8000000;

pub const CLONE_NEWUSER: u32 = 0x10000000;

pub const CLONE_NEWPID: u32 = 0x20000000;

pub const CLONE_NEWNET: u32 = 0x40000000;

pub const CLONE_IO: u32 = 0x80000000;

/// The bits of the argument that are the signal of the child's exit.
pub const CLONE_SIGNAL_MASK: u32 = 0xff;

/// The bits of the argument that are flags.
pub const CLONE_KNOWN: u32 = 0xffbfff00;

/// Whether all the bits of `wanted` are set.
pub open spec fn has_flags(flags: u32, wanted: u32) -> bool {
    flags & wanted == wanted
}

/// The flags that the argument of the system call stands for. A child that its parent waits
/// for gets memory of its own instead.
pub open spec fn clone_flags(raw: u32) -> u32 {
    let known = (raw & !CLONE_SIGNAL_MASK) & CLONE_KNOWN;
    if has_flags(known, CLONE_VFORK) {
        known & !CLONE_VM
    } else {
        known
    }
}

/// The flags of a `clone`.
#[derive(Clone, Copy, Debug, Eq, PartialEq, Structural)]
pub struct CloneFlags {
    pub bits: u32,
}

impl CloneFlags {
    /// The flags that the argument of the system call stands for.
    pub fn from_argument(raw: u32) -> (flags: Self)
        ensures
            flags.bits == clone_flags(raw),
    {
        let mut flags: CloneFlags = CloneFlags { bits: (raw & !CLONE_SIGNAL_MASK) & CLONE_KNOWN };
        if flags.contains(CLONE_VFORK) {
            flags.bits = flags.bits & !CLONE_VM;
        }
        flags
    }

    /// Whether all the bits of `wanted` are set.
    pub fn contains(&self, wanted: u32) -> (b: bool)
        ensures
            b == has_flags(self.bits, wanted),
    {
        self.bits & wanted == wanted
    }
}

/// Whether the argument of the system call is an error: a signal for a thread that would have
/// the caller's parent, a thread that does not share memory and signal handlers, or two
/// results for one place.
pub open spec fn clone_refused(raw: u32) -> bool {
    let flags = clone_flags(raw);
    ||| raw & CLONE_SIGNAL_MASK != 0 && has_flags(flags, CLONE_THREAD | CLONE_PARENT)
    ||| has_flags(flags, CLONE_THREAD) && !has_flags(flags, CLONE_VM | CLONE_SIGHAND)
    ||| has_flags(flags, CLONE_PIDFD | CLONE_PARENT_SETTID)
}

/// What a new task begins with.
#[derive(Clone, Copy, Debug, Eq, PartialEq, Structural)]
pub struct NewTask {
    pub context: UserContext,
    /// Where the child writes its ID when it begins, or 0.
    pub set_child_tid: usize,
    /// Where the child's ID is cleared when it exits, if it is.
    pub clear_child_tid: Option<usize>,
    /// The signal of the child's exit.
    pub exit_signal: Option<u8>,
}

/// What a child runs with: what its parent does, but on its own stack, with its own thread
/// local storage, where it was given them, and with 0 as the result of the system call.
pub open spec fn child_context(
    context: UserContext,
    flags: u32,
    stack: usize,
    tls: usize,
) -> UserContext {
    UserContext {
        regs: UserGeneralRegs {
            sp: if stack != 0 {
                stack
            } else {
                context.regs.sp
            },
            tp: if has_flags(flags, CLONE_SETTLS) {
                tls
            } else {
                context.regs.tp
            },
            a0: 0,
            ..context.regs
        },
        ..context
    }
}

/// What a child begins with.
pub open spec fn new_child(
    context: UserContext,
    raw: u32,
    stack: usize,
    child_tid: usize,
    tls: usize,
) -> NewTask {
    let flags = clone_flags(raw);
    NewTask {
        context: child_context(context, flags, stack, tls),
        set_child_tid: if has_flags(flags, CLONE_CHILD_SETTID) {
            child_tid
        } else {
            0
        },
        clear_child_tid: if has_flags(flags, CLONE_CHILD_CLEARTID) {
            Some(child_tid)
        } else {
            None
        },
        exit_signal: if is_signal((raw & CLONE_SIGNAL_MASK) as int) {
            Some((raw & CLONE_SIGNAL_MASK) as u8)
        } else {
            None
        },
    }
}

/// What is done to make a task.
#[derive(Clone, Copy, Debug, Eq, PartialEq, Structural)]
pub enum CloneAction {
    /// Make the kernel task, which has an ID from then on.
    NewTask,
    /// Write the ID to the caller's memory.
    WriteParentTid { at: usize },
    /// Find the caller's parent.
    FindParent,
    /// Make a process, of the caller or of the caller's parent.
    Fork { from_parent: bool },
    ShareAspace,
    CopyAspace,
    /// Show the kernel's memory in the copied address space.
    CopyKernelMappings,
    /// Give the kernel task the page table of its address space.
    SetPageTable,
    ShareSignalActions,
    CopySignalActions,
    /// Make what the kernel keeps of the process, with the signal of its exit.
    NewProcessData,
    InheritUmask,
    InheritHeapTop,
    ShareFiles,
    CopyFiles,
    ShareFs,
    CopyFs,
    /// Make the task a thread of its process.
    AddThread,
    /// Make a file descriptor of the child.
    NewPidFd,
    /// Write it to the caller's memory.
    WritePidFd { at: usize },
    NewThread,
    /// Say where the child's ID is cleared when it exits.
    SetClearChildTid { at: usize },
    /// Make the task of the external scheduler.
    NewVschedTask,
    /// Take what the copied address space has of the scheduler's shared object out of it.
    UnmapVdso,
    /// Map the shared object again, with data of its own.
    MapVdso,
    /// Tell the task where its address space has the shared object.
    PublishVdsoBase,
    /// Make the scheduler's entry of the process.
    ProcessInit,
    /// Keep the entry with what the kernel has of the process.
    BindProcessId,
    /// The task belongs to the entry that its process is bound to.
    SetPid,
    UserInit,
    /// Give the task a slot in the shared table, and an ID with it.
    RegisterUserTask,
    /// Give the task, by its ID, to the scheduler of its process.
    PushTask,
    /// Give the task to the kernel's own run queue.
    SpawnTask,
    /// Enter the task into the kernel's table of tasks.
    AddToTable,
}

/// What is done for a process of its own.
pub open spec fn process_actions(flags: u32) -> Seq<CloneAction> {
    let parent = if has_flags(flags, CLONE_PARENT) {
        seq![CloneAction::FindParent, CloneAction::Fork { from_parent: true }]
    } else {
        seq![CloneAction::Fork { from_parent: false }]
    };
    let aspace = if has_flags(flags, CLONE_VM) {
        seq![CloneAction::ShareAspace]
    } else {
        seq![CloneAction::CopyAspace, CloneAction::CopyKernelMappings]
    };
    let signals = if has_flags(flags, CLONE_SIGHAND) {
        CloneAction::ShareSignalActions
    } else {
        CloneAction::CopySignalActions
    };
    let files = if has_flags(flags, CLONE_FILES) {
        CloneAction::ShareFiles
    } else {
        CloneAction::CopyFiles
    };
    let fs = if has_flags(flags, CLONE_FS) {
        CloneAction::ShareFs
    } else {
        CloneAction::CopyFs
    };
    parent + aspace + seq![
        CloneAction::SetPageTable,
        signals,
        CloneAction::NewProcessData,
        CloneAction::InheritUmask,
        CloneAction::InheritHeapTop,
        files,
        fs,
    ]
}

/// What is done before the task is given to a scheduler.
pub open spec fn setup_actions(flags: u32, parent_tid: usize, child_tid: usize) -> Seq<CloneAction> {
    let ids = if has_flags(flags, CLONE_PARENT_SETTID) {
        seq![CloneAction::NewTask, CloneAction::WriteParentTid { at: parent_tid }]
    } else {
        seq![CloneAction::NewTask]
    };
    let process = if has_flags(flags, CLONE_THREAD) {
        seq![CloneAction::SetPageTable]
    } else {
        process_actions(flags)
    };
    let pidfd = if has_flags(flags, CLONE_PIDFD) {
        seq![CloneAction::NewPidFd, CloneAction::WritePidFd { at: parent_tid }]
    } else {
        Seq::<CloneAction>::empty()
    };
    let clear = if has_flags(flags, CLONE_CHILD_CLEARTID) {
        seq![CloneAction::NewThread, CloneAction::SetClearChildTid { at: child_tid }]
    } else {
        seq![CloneAction::NewThread]
    };
    ids + process + seq![CloneAction::AddThread] + pidfd + clear
}

/// What is done to give the task to the external scheduler. A thread belongs to the entry of
/// its maker's process. A process of its own gets an entry of its own; if its memory is its
/// own too, it gets its own copy of the shared object's data.
pub open spec fn vsched_actions(flags: u32) -> Seq<CloneAction> {
    let vdso = if has_flags(flags, CLONE_VM) {
        Seq::<CloneAction>::empty()
    } else {
        seq![CloneAction::UnmapVdso, CloneAction::MapVdso]
    };
    let process = if has_flags(flags, CLONE_THREAD) {
        seq![CloneAction::SetPid]
    } else {
        vdso + seq![
            CloneAction::PublishVdsoBase,
            CloneAction::ProcessInit,
            CloneAction::BindProcessId,
            CloneAction::SetPid,
            CloneAction::UserInit,
        ]
    };
    seq![CloneAction::NewVschedTask] + process + seq![
        CloneAction::RegisterUserTask,
        CloneAction::PushTask,
        CloneAction::AddToTable,
    ]
}

/// All that is done to make a task, in order.
pub open spec fn clone_actions(
    flags: u32,
    parent_tid: usize,
    child_tid: usize,
    vsched2: bool,
) -> Seq<CloneAction> {
    setup_actions(flags, parent_tid, child_tid) + if vsched2 {
        vsched_actions(flags)
    } else {
        seq![CloneAction::SpawnTask, CloneAction::AddToTable]
    }
}

fn push_process_actions(actions: &mut Vec<CloneAction>, flags: CloneFlags)
    ensures
        final(actions)@ == old(actions)@ + process_actions(flags.bits),
{
    if flags.contains(CLONE_PARENT) {
        actions.push(CloneAction::FindParent);
        actions.push(CloneAction::Fork { from_parent: true });
    } else {
        actions.push(CloneAction::Fork { from_parent: false });
    }
    if flags.contains(CLONE_VM) {
        actions.push(CloneAction::ShareAspace);
    } else {
        actions.push(CloneAction::CopyAspace);
        actions.push(CloneAction::CopyKernelMappings);
    }
    actions.push(CloneAction::SetPageTable);
    if flags.contains(CLONE_SIGHAND) {
        actions.push(CloneAction::ShareSignalActions);
    } else {
        actions.push(CloneAction::CopySignalActions);
    }
    actions.push(CloneAction::NewProcessData);
    actions.push(CloneAction::InheritUmask);
    actions.push(CloneAction::InheritHeapTop);
    if flags.contains(CLONE_FILES) {
        actions.push(CloneAction::ShareFiles);
    } else {
        actions.push(CloneAction::CopyFiles);
    }
    if flags.contains(CLONE_FS) {
        actions.push(CloneAction::ShareFs);
    } else {
        actions.push(CloneAction::CopyFs);
    }
    assert(actions@ =~= old(actions)@ + process_actions(flags.bits));
}

fn push_vsched_actions(actions: &mut Vec<CloneAction>, flags: CloneFlags)
    ensures
        final(actions)@ == old(actions)@ + vsched_actions(flags.bits),
{
    actions.push(CloneAction::NewVschedTask);
    if flags.contains(CLONE_THREAD) {
        actions.push(CloneAction::SetPid);
    } else {
        if !flags.contains(CLONE_VM) {
            actions.push(CloneAction::UnmapVdso);
            actions.push(CloneAction::MapVdso);
        }
        actions.push(CloneAction::PublishVdsoBase);
        actions.push(CloneAction::ProcessInit);
        actions.push(CloneAction::BindProcessId);
        actions.push(CloneAction::SetPid);
        actions.push(CloneAction::UserInit);
    }
    actions.push(CloneAction::RegisterUserTask);
    actions.push(CloneAction::PushTask);
    actions.push(CloneAction::AddToTable);
    assert(actions@ =~= old(actions)@ + vsched_actions(flags.bits));
}

fn push_setup_actions(
    actions: &mut Vec<CloneAction>,
    flags: CloneFlags,
    parent_tid: usize,
    child_tid: usize,
)
    requires
        old(actions)@.len() == 0,
    ensures
        final(actions)@ == setup_actions(flags.bits, parent_tid, child_tid),
{
    actions.push(CloneAction::NewTask);
    if flags.contains(CLONE_PARENT_SETTID) {
        actions.push(CloneAction::WriteParentTid { at: parent_tid });
    }
    let ghost ids = actions@;
    if flags.contains(CLONE_THREAD) {
        actions.push(CloneAction::SetPageTable);
    } else {
        push_process_actions(actions, flags);
    }
    let ghost process = if has_flags(flags.bits, CLONE_THREAD) {
        seq![CloneAction::SetPageTable]
    } else {
        process_actions(flags.bits)
    };
    assert(actions@ =~= ids + process);
    actions.push(CloneAction::AddThread);
    if flags.contains(CLONE_PIDFD) {
        actions.push(CloneAction::NewPidFd);
        actions.push(CloneAction::WritePidFd { at: parent_tid });
    }
    actions.push(CloneAction::NewThread);
    if flags.contains(CLONE_CHILD_CLEARTID) {
        actions.push(CloneAction::SetClearChildTid { at: child_tid });
    }
    assert(actions@ =~= setup_actions(flags.bits, parent_tid, child_tid));
}

fn all_actions(flags: CloneFlags, parent_tid: usize, child_tid: usize, vsched2: bool) -> (actions:
    Vec<CloneAction>)
    ensures
        actions@ == clone_actions(flags.bits, parent_tid, child_tid, vsched2),
{
    let mut actions: Vec<CloneAction> = Vec::new();
    push_setup_actions(&mut actions, flags, parent_tid, child_tid);
    let ghost setup = actions@;
    if vsched2 {
        push_vsched_actions(&mut actions, flags);
    } else {
        actions.push(CloneAction::SpawnTask);
        actions.push(CloneAction::AddToTable);
        assert(actions@ =~= setup + seq![CloneAction::SpawnTask, CloneAction::AddToTable]);
    }
    actions
}

/// Makes a task: says what it begins with, and what is done to make it. `vsched2` says whether
/// the external scheduler runs. The result of the system call is the child's ID.
pub fn sys_clone(
    context: &UserContext,
    flags: u32,
    stack: usize,
    parent_tid: usize,
    tls: usize,
    child_tid: usize,
    vsched2: bool,
) -> (r: Result<(NewTask, Vec<CloneAction>), SysError>)
    ensures
        r.is_err() == clone_refused(flags),
        r matches Err(e) ==> e == SysError::InvalidInput,
        r matches Ok(made) ==> {
            &&& made.0 == new_child(*context, flags, stack, child_tid, tls)
            &&& made.1@ == clone_actions(clone_flags(flags), parent_tid, child_tid, vsched2)
        },
{
    let raw: u32 = flags;
    let exit_signal: u32 = raw & CLONE_SIGNAL_MASK;
    let flags: CloneFlags = CloneFlags::from_argument(raw);
    if exit_signal != 0 && flags.contains(CLONE_THREAD | CLONE_PARENT) {
        return Err(SysError::InvalidInput);
    }
    if flags.contains(CLONE_THREAD) && !flags.contains(CLONE_VM | CLONE_SIGHAND) {
        return Err(SysError::InvalidInput);
    }
    if flags.contains(CLONE_PIDFD | CLONE_PARENT_SETTID) {
        return Err(SysError::InvalidInput);
    }
    assert(raw & CLONE_SIGNAL_MASK < 256) by (bit_vector)
        requires
            CLONE_SIGNAL_MASK == 0xff,
    ;
    let exit_signal: Option<u8> = signal_from_number(exit_signal as u8);
    let mut new_context: UserContext = *context;
    if stack != 0 {
        new_context.regs.sp = stack;
    }
    if flags.contains(CLONE_SETTLS) {
        new_context.regs.tp = tls;
    }
    new_context.regs.a0 = 0;
    let set_child_tid: usize = if flags.contains(CLONE_CHILD_SETTID) {
        child_tid
    } else {
        0
    };
    let clear_child_tid: Option<usize> = if flags.contains(CLONE_CHILD_CLEARTID) {
        Some(child_tid)
    } else {
        None
    };
    let actions: Vec<CloneAction> = all_actions(flags, parent_tid, child_tid, vsched2);
    let child: NewTask = NewTask {
        context: new_context,
        set_child_tid,
        clear_child_tid,
        exit_signal,
    };
    Ok((child, actions))
}

/// Makes a process that is a copy of the caller's.
pub fn sys_fork(context: &UserContext, vsched2: bool) -> (made: (NewTask, Vec<CloneAction>))
    ensures
        made.0 == (NewTask {
            context: UserContext {
                regs: UserGeneralRegs { a0: 0, ..context.regs },
                ..*context
            },
            set_child_tid: 0,
            clear_child_tid: None,
            exit_signal: Some(SIGCHLD),
        }),
        made.1@ == clone_actions(0, 0, 0, vsched2),
{
    proof {
        lemma_fork_flags();
    }
    match sys_clone(context, SIGCHLD as u32, 0, 0, 0, 0, vsched2) {
        Ok(made) => made,
        Err(_) => {
            assert(false);
            (
                NewTask {
                    context: *context,
                    set_child_tid: 0,
                    clear_child_tid: None,
                    exit_signal: None,
                },
                Vec::new(),
            )
        },
    }
}

proof fn lemma_fork_flags()
    ensures
        clone_flags(17) == 0,
        17u32 & CLONE_SIGNAL_MASK == 17,
        !clone_refused(17),
        forall|wanted: u32| #[trigger] has_flags(0, wanted) ==> wanted == 0,
{
    assert((17u32 & !0xffu32) & 0xffbfff00u32 == 0 && 17u32 & 0xff == 17) by (bit_vector);
    assert(forall|wanted: u32| #[trigger] (0u32 & wanted) == 0) by (bit_vector);
    assert(0x10000u32 | 0x8000u32 != 0 && 0x1000u32 | 0x100000u32 != 0) by (bit_vector);
}

/// What becomes of the system call when an action fails with `error`: the error that it
/// returns, or nothing if the failure is ignored.
pub fn clone_failed(action: CloneAction, error: SysError) -> (r: Option<SysError>)
    ensures
        r == (match action {
            CloneAction::WriteParentTid { .. } | CloneAction::PushTask => None,
            CloneAction::FindParent => Some(SysError::InvalidInput),
            _ => Some(error),
        }),
{
    match action {
        CloneAction::WriteParentTid { .. } | CloneAction::PushTask => None,
        CloneAction::FindParent => Some(SysError::InvalidInput),
        _ => Some(error),
    }
}

/// The areas, by address and length, among the first `n` that lie between `start` and `end`.
pub open spec fn areas_within(
    areas: Seq<(usize, usize)>,
    start: int,
    end: int,
    n: nat,
) -> Seq<(usize, usize)>
    decreases n,
{
    if n == 0 {
        Seq::empty()
    } else {
        let before = areas_within(areas, start, end, (n - 1) as nat);
        let (s, e) = areas[n - 1];
        if s >= start && e <= end {
            before.push((s, (e - s) as usize))
        } else {
            before
        }
    }
}

/// The areas of a copied address space that are taken out of it: those of the scheduler's
/// shared object and its shared data. Areas come by first address and end, and go by address
/// and length.
pub fn vdso_areas_to_unmap(
    areas: &Vec<(usize, usize)>,
    vdso_base: usize,
    vvar_size: usize,
    vdso_size: usize,
) -> (unmap: Vec<(usize, usize)>)
    requires
        vvar_size <= vdso_base,
        vdso_base + vdso_size <= usize::MAX,
        forall|i: int| 0 <= i < areas@.len() ==> (#[trigger] areas@[i]).0 <= areas@[i].1,
    ensures
        unmap@ == areas_within(
            areas@,
            vdso_base - vvar_size,
            vdso_base + vdso_size,
            areas@.len(),
        ),
{
    let vvar_start: usize = vdso_base - vvar_size;
    let vdso_end: usize = vdso_base + vdso_size;
    let mut unmap: Vec<(usize, usize)> = Vec::new();
    let mut i: usize = 0;
    while i < areas.len()
        invariant
            i <= areas@.len(),
            vvar_start == vdso_base - vvar_size,
            vdso_end == vdso_base + vdso_size,
            forall|j: int| 0 <= j < areas@.len() ==> (#[trigger] areas@[j]).0 <= areas@[j].1,
            unmap@ == areas_within(areas@, vvar_start as int, vdso_end as int, i as nat),
        decreases areas@.len() - i,
    {
        let (s, e): (usize, usize) = areas[i];
        if s >= vvar_start && e <= vdso_end {
            assert(areas@[i as int].0 <= areas@[i as int].1);
            unmap.push((s, e - s));
        }
        i += 1;
    }
    unmap
}

/// What the flags mean is what their bits say, but for memory, which a child that its parent
/// waits for does not share.
pub proof fn law_flags_are_their_bits(raw: u32)
    ensures
        has_flags(clone_flags(raw), CLONE_THREAD) == has_flags(raw, CLONE_THREAD),
        has_flags(clone_flags(raw), CLONE_SIGHAND) == has_flags(raw, CLONE_SIGHAND),
        has_flags(clone_flags(raw), CLONE_FILES) == has_flags(raw, CLONE_FILES),
        has_flags(clone_flags(raw), CLONE_FS) == has_flags(raw, CLONE_FS),
        has_flags(clone_flags(raw), CLONE_PARENT) == has_flags(raw, CLONE_PARENT),
        has_flags(clone_flags(raw), CLONE_SETTLS) == has_flags(raw, CLONE_SETTLS),
        has_flags(clone_flags(raw), CLONE_PIDFD) == has_flags(raw, CLONE_PIDFD),
        has_flags(clone_flags(raw), CLONE_VM) == (has_flags(raw, CLONE_VM) && !has_flags(
            raw,
            CLONE_VFORK,
        )),
{
    assert({
        let known = (raw & !0xffu32) & 0xffbfff00u32;
        let flags = if known & 0x4000 == 0x4000 {
            known & !0x100u32
        } else {
            known
        };
        &&& (flags & 0x10000 == 0x10000) == (raw & 0x10000 == 0x10000)
        &&& (flags & 0x800 == 0x800) == (raw & 0x800 == 0x800)
        &&& (flags & 0x400 == 0x400) == (raw & 0x400 == 0x400)
        &&& (flags & 0x200 == 0x200) == (raw & 0x200 == 0x200)
        &&& (flags & 0x8000 == 0x8000) == (raw & 0x8000 == 0x8000)
        &&& (flags & 0x80000 == 0x80000) == (raw & 0x80000 == 0x80000)
        &&& (flags & 0x1000 == 0x1000) == (raw & 0x1000 == 0x1000)
        &&& (flags & 0x100 == 0x100) == (raw & 0x100 == 0x100 && raw & 0x4000 != 0x4000)
    }) by (bit_vector);
}

/// A thread that is made shares memory and signal handlers with its maker, and no process is
/// made for it.
pub proof fn law_threads_share_their_process(
    raw: u32,
    parent_tid: usize,
    child_tid: usize,
    vsched2: bool,
    i: int,
)
    requires
        !clone_refused(raw),
        has_flags(clone_flags(raw), CLONE_THREAD),
        0 <= i < clone_actions(clone_flags(raw), parent_tid, child_tid, vsched2).len(),
    ensures
        has_flags(clone_flags(raw), CLONE_VM),
        has_flags(clone_flags(raw), CLONE_SIGHAND),
        !(clone_actions(clone_flags(raw), parent_tid, child_tid, vsched2)[i] is Fork),
        !(clone_actions(clone_flags(raw), parent_tid, child_tid, vsched2)[i] is CopyAspace),
{
    let flags = clone_flags(raw);
    assert(has_flags(flags, CLONE_VM | CLONE_SIGHAND));
    assert(flags & (0x100u32 | 0x800u32) == (0x100u32 | 0x800u32) ==> flags & 0x100 == 0x100
        && flags & 0x800 == 0x800) by (bit_vector);
}

/// A task that is given to the external scheduler belongs to an entry of the scheduler and has
/// its slot in the shared table before, so that it can run at once, and end. A process of its
/// own is bound to its entry, and knows where its address space has the shared object.
pub proof fn law_child_is_complete_when_it_is_pushed(flags: u32)
    ensures
        ({
            let actions = vsched_actions(flags);
            let n = actions.len() as int;
            &&& n >= 5
            &&& actions[0] is NewVschedTask
            &&& actions[n - 1] is AddToTable
            &&& actions[n - 2] is PushTask
            &&& actions[n - 3] is RegisterUserTask
            &&& has_flags(flags, CLONE_THREAD) ==> n == 5 && actions[1] is SetPid
            &&& !has_flags(flags, CLONE_THREAD) ==> {
                &&& n >= 9
                &&& actions[n - 4] is UserInit
                &&& actions[n - 5] is SetPid
                &&& actions[n - 6] is BindProcessId
                &&& actions[n - 7] is ProcessInit
                &&& actions[n - 8] is PublishVdsoBase
                &&& !has_flags(flags, CLONE_VM) ==> actions[n - 9] is MapVdso && actions[n
                    - 10] is UnmapVdso
            }
        }),
{
}

/// A thread is given to the entry of its maker's process: none is made for it.
pub proof fn law_threads_share_their_scheduler(flags: u32, i: int)
    requires
        has_flags(flags, CLONE_THREAD),
        0 <= i < vsched_actions(flags).len(),
    ensures
        !(vsched_actions(flags)[i] is ProcessInit),
        !(vsched_actions(flags)[i] is BindProcessId),
        !(vsched_actions(flags)[i] is MapVdso),
{
}

/// A child that is made from a trap has the registers of the task that trapped, but for the
/// result of the call, and for the stack and the thread local storage that it was given; and
/// it goes on where that task does.
pub proof fn law_child_has_its_parents_registers(
    frame: UserTrapFrame,
    sstatus: usize,
    flags: u32,
    stack: usize,
    tls: usize,
)
    requires
        frame.sepc + 4 <= usize::MAX,
    ensures
        ({
            let child = child_context(syscall_context_of(frame, sstatus), flags, stack, tls);
            &&& child.regs == (UserGeneralRegs {
                a0: 0,
                sp: if stack != 0 {
                    stack
                } else {
                    frame.regs.sp
                },
                tp: if has_flags(flags, CLONE_SETTLS) {
                    tls
                } else {
                    frame.regs.tp
                },
                ..frame.regs
            })
            &&& child.sepc == frame.sepc + 4
        }),
{
}

} // verus!
