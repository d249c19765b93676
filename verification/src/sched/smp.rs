//! CPUs, as the scheduler asks for them.

use vstd::prelude::*;

verus! {

/// The scheduler's view of the CPUs.
#[derive(Clone, Copy, Debug, Eq, PartialEq, Structural)]
pub struct VschedSmpImpl {
    pub cpu_num: usize,
}

impl VschedSmpImpl {
    /// The number of the CPU `this_cpu`, which is one that the scheduler knows.
    pub fn cpu_id(&self, this_cpu: usize) -> (cpu: usize)
        requires
            this_cpu < self.cpu_num,
        ensures
            cpu == this_cpu,
            cpu < self.cpu_num,
    {
        this_cpu
    }

    /// The CPU that is interrupted to wake its scheduler: another one than `this_cpu`.
    pub fn send_ipi(&self, target_cpu: usize, this_cpu: usize) -> (cpu: usize)
        requires
            target_cpu < self.cpu_num,
            target_cpu != this_cpu,
        ensures
            cpu == target_cpu,
    {
        target_cpu
    }
}

} // verus!
