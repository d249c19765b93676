//! Process identities of the scheduler.

use vstd::prelude::*;

verus! {

/// Process ID 0 is reserved for the kernel's scheduling domain.
pub const VSCHED_KERNEL_PROCESS_ID: usize = 0;

/// The sentinel of a user address space that has not been registered yet.
pub const VSCHED_INVALID_PROCESS_ID: usize = usize::MAX;

/// Whether `raw` can name a user scheduling domain.
pub open spec fn is_user_raw(raw: usize) -> bool {
    raw != VSCHED_KERNEL_PROCESS_ID && raw != VSCHED_INVALID_PROCESS_ID
}

/// A checked index into the scheduler's global process table.
///
/// Process and thread IDs of the operating system are another name space: only a
/// value that the scheduler's `process_init` returned becomes one of these.
#[derive(Clone, Copy, Debug, Eq, Hash, Ord, PartialEq, PartialOrd, Structural)]
pub struct VschedProcessId(usize);

impl View for VschedProcessId {
    type V = usize;

    closed spec fn view(&self) -> usize {
        self.0
    }
}

impl VschedProcessId {
    /// The kernel's scheduling domain.
    pub fn kernel() -> (id: Self)
        ensures
            id@ == VSCHED_KERNEL_PROCESS_ID,
            !is_user_raw(id@),
    {
        VschedProcessId(VSCHED_KERNEL_PROCESS_ID)
    }

    /// Makes a user process ID out of what `process_init` returned.
    pub fn from_user_raw(raw: usize) -> (id: Option<Self>)
        ensures
            id.is_some() == is_user_raw(raw),
            id matches Some(p) ==> p@ == raw,
    {
        if raw == VSCHED_KERNEL_PROCESS_ID || raw == VSCHED_INVALID_PROCESS_ID {
            None
        } else {
            Some(VschedProcessId(raw))
        }
    }

    /// The process table index that the scheduler's interface takes.
    pub fn as_raw(self) -> (raw: usize)
        ensures
            raw == self@,
    {
        self.0
    }

    /// Whether this ID stands for a user scheduling domain.
    pub fn is_user(self) -> (b: bool)
        ensures
            b == is_user_raw(self@),
    {
        self.0 != VSCHED_KERNEL_PROCESS_ID && self.0 != VSCHED_INVALID_PROCESS_ID
    }
}

/// A process ID is its raw value: IDs with the same raw value are the same.
pub proof fn law_process_id_is_its_raw_value(a: VschedProcessId, b: VschedProcessId)
    ensures
        a@ == b@ <==> a == b,
{
}

} // verus!
