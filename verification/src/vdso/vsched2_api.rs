//! The functions of the external scheduler's shared object.

use vstd::prelude::*;

verus! {

/// A function of the shared object.
#[derive(Clone, Copy, Debug, Eq, PartialEq, Structural)]
pub enum VdsoFn {
    KernelInitMain,
    KernelInitSecondary,
    ProcessInit,
    ProcessDrop,
    ProcessReinit,
    UserInit,
    UserInitWithVspace,
    UserSchedulerAddr,
    PushTaskIntoCurrent,
    PushTask,
    PushTaskIntoProcess,
    CurrentVspace,
    TrapHandler,
    CurrentTaskPtr,
    SetCurrentTaskPtr,
    TakeCurrentStack,
    RawTrapEntry,
    RawThreadEntry,
    RawRunTask,
    RawKschedule,
    InitLog,
    InitVtableTask,
    InitVtableStack,
    InitVtableContext,
    InitVtableTrapInfo,
    InitVtableSMP,
    InitVtableVSpace,
    InitVtableUserData,
}

/// Where the shared object's functions are. None is known before the table is filled.
#[derive(Clone, Copy, Debug, Eq, PartialEq, Structural)]
#[allow(non_snake_case)]
pub struct VdsoVTable {
    pub kernel_init_main: Option<u64>,
    pub kernel_init_secondary: Option<u64>,
    pub process_init: Option<u64>,
    pub process_drop: Option<u64>,
    pub process_reinit: Option<u64>,
    pub user_init: Option<u64>,
    pub user_init_with_vspace: Option<u64>,
    pub user_scheduler_addr: Option<u64>,
    pub push_task_into_current: Option<u64>,
    pub push_task: Option<u64>,
    pub push_task_into_process: Option<u64>,
    pub current_vspace: Option<u64>,
    pub trap_handler: Option<u64>,
    pub current_task_ptr: Option<u64>,
    pub set_current_task_ptr: Option<u64>,
    pub take_current_stack: Option<u64>,
    pub raw_trap_entry: Option<u64>,
    pub raw_thread_entry: Option<u64>,
    pub raw_run_task: Option<u64>,
    pub raw_kschedule: Option<u64>,
    pub init_log: Option<u64>,
    pub init_vtable_Task: Option<u64>,
    pub init_vtable_Stack: Option<u64>,
    pub init_vtable_Context: Option<u64>,
    pub init_vtable_TrapInfo: Option<u64>,
    pub init_vtable_SMP: Option<u64>,
    pub init_vtable_VSpace: Option<u64>,
    pub init_vtable_UserData: Option<u64>,
}

/// The last offset of a function in the shared object.
pub const LAST_OFFSET: u64 = 0x5a22;

impl VdsoFn {
    /// Where in the shared object the function is.
    pub open spec fn offset(self) -> u64 {
        match self {
            VdsoFn::KernelInitMain => 0x4168,
            VdsoFn::KernelInitSecondary => 0x4334,
            VdsoFn::ProcessInit => 0x45d2,
            VdsoFn::ProcessDrop => 0x4572,
            VdsoFn::ProcessReinit => 0x485c,
            VdsoFn::UserInit => 0x52fa,
            VdsoFn::UserInitWithVspace => 0x5318,
            VdsoFn::UserSchedulerAddr => 0x5388,
            VdsoFn::PushTaskIntoCurrent => 0x4b9a,
            VdsoFn::PushTask => 0x4a98,
            VdsoFn::PushTaskIntoProcess => 0x4bea,
            VdsoFn::CurrentVspace => 0x4100,
            VdsoFn::TrapHandler => 0x4ec6,
            VdsoFn::CurrentTaskPtr => 0x4098,
            VdsoFn::SetCurrentTaskPtr => 0x4c76,
            VdsoFn::TakeCurrentStack => 0x4ce2,
            VdsoFn::RawTrapEntry => 0x8f4,
            VdsoFn::RawThreadEntry => 0x924,
            VdsoFn::RawRunTask => 0x98e,
            VdsoFn::RawKschedule => 0x944,
            VdsoFn::InitLog => 0x5a22,
            VdsoFn::InitVtableTask => 0x57a4,
            VdsoFn::InitVtableStack => 0x5770,
            VdsoFn::InitVtableContext => 0x571c,
            VdsoFn::InitVtableTrapInfo => 0x5810,
            VdsoFn::InitVtableSMP => 0x574c,
            VdsoFn::InitVtableVSpace => 0x5868,
            VdsoFn::InitVtableUserData => 0x5844,
        }
    }
}

impl VdsoVTable {
    /// What the table says of a function.
    pub open spec fn get(self, f: VdsoFn) -> Option<u64> {
        match f {
            VdsoFn::KernelInitMain => self.kernel_init_main,
            VdsoFn::KernelInitSecondary => self.kernel_init_secondary,
            VdsoFn::ProcessInit => self.process_init,
            VdsoFn::ProcessDrop => self.process_drop,
            VdsoFn::ProcessReinit => self.process_reinit,
            VdsoFn::UserInit => self.user_init,
            VdsoFn::UserInitWithVspace => self.user_init_with_vspace,
            VdsoFn::UserSchedulerAddr => self.user_scheduler_addr,
            VdsoFn::PushTaskIntoCurrent => self.push_task_into_current,
            VdsoFn::PushTask => self.push_task,
            VdsoFn::PushTaskIntoProcess => self.push_task_into_process,
            VdsoFn::CurrentVspace => self.current_vspace,
            VdsoFn::TrapHandler => self.trap_handler,
            VdsoFn::CurrentTaskPtr => self.current_task_ptr,
            VdsoFn::SetCurrentTaskPtr => self.set_current_task_ptr,
            VdsoFn::TakeCurrentStack => self.take_current_stack,
            VdsoFn::RawTrapEntry => self.raw_trap_entry,
            VdsoFn::RawThreadEntry => self.raw_thread_entry,
            VdsoFn::RawRunTask => self.raw_run_task,
            VdsoFn::RawKschedule => self.raw_kschedule,
            VdsoFn::InitLog => self.init_log,
            VdsoFn::InitVtableTask => self.init_vtable_Task,
            VdsoFn::InitVtableStack => self.init_vtable_Stack,
            VdsoFn::InitVtableContext => self.init_vtable_Context,
            VdsoFn::InitVtableTrapInfo => self.init_vtable_TrapInfo,
            VdsoFn::InitVtableSMP => self.init_vtable_SMP,
            VdsoFn::InitVtableVSpace => self.init_vtable_VSpace,
            VdsoFn::InitVtableUserData => self.init_vtable_UserData,
        }
    }

    /// Whether every function is where the shared object at `base` has it.
    pub open spec fn is_for(self, base: u64) -> bool {
        forall|f: VdsoFn| #[trigger] self.get(f) == Some((base + f.offset()) as u64)
    }

    /// The table before it is filled.
    pub fn new() -> (table: Self)
        ensures
            forall|f: VdsoFn| (#[trigger] table.get(f)).is_none(),
    {
        VdsoVTable {
            kernel_init_main: None,
            kernel_init_secondary: None,
            process_init: None,
            process_drop: None,
            process_reinit: None,
            user_init: None,
            user_init_with_vspace: None,
            user_scheduler_addr: None,
            push_task_into_current: None,
            push_task: None,
            push_task_into_process: None,
            current_vspace: None,
            trap_handler: None,
            current_task_ptr: None,
            set_current_task_ptr: None,
            take_current_stack: None,
            raw_trap_entry: None,
            raw_thread_entry: None,
            raw_run_task: None,
            raw_kschedule: None,
            init_log: None,
            init_vtable_Task: None,
            init_vtable_Stack: None,
            init_vtable_Context: None,
            init_vtable_TrapInfo: None,
            init_vtable_SMP: None,
            init_vtable_VSpace: None,
            init_vtable_UserData: None,
        }
    }

    /// Where a function is called, once the table is filled.
    pub fn entry(&self, f: VdsoFn) -> (addr: Option<u64>)
        ensures
            addr == self.get(f),
    {
        match f {
            VdsoFn::KernelInitMain => self.kernel_init_main,
            VdsoFn::KernelInitSecondary => self.kernel_init_secondary,
            VdsoFn::ProcessInit => self.process_init,
            VdsoFn::ProcessDrop => self.process_drop,
            VdsoFn::ProcessReinit => self.process_reinit,
            VdsoFn::UserInit => self.user_init,
            VdsoFn::UserInitWithVspace => self.user_init_with_vspace,
            VdsoFn::UserSchedulerAddr => self.user_scheduler_addr,
            VdsoFn::PushTaskIntoCurrent => self.push_task_into_current,
            VdsoFn::PushTask => self.push_task,
            VdsoFn::PushTaskIntoProcess => self.push_task_into_process,
            VdsoFn::CurrentVspace => self.current_vspace,
            VdsoFn::TrapHandler => self.trap_handler,
            VdsoFn::CurrentTaskPtr => self.current_task_ptr,
            VdsoFn::SetCurrentTaskPtr => self.set_current_task_ptr,
            VdsoFn::TakeCurrentStack => self.take_current_stack,
            VdsoFn::RawTrapEntry => self.raw_trap_entry,
            VdsoFn::RawThreadEntry => self.raw_thread_entry,
            VdsoFn::RawRunTask => self.raw_run_task,
            VdsoFn::RawKschedule => self.raw_kschedule,
            VdsoFn::InitLog => self.init_log,
            VdsoFn::InitVtableTask => self.init_vtable_Task,
            VdsoFn::InitVtableStack => self.init_vtable_Stack,
            VdsoFn::InitVtableContext => self.init_vtable_Context,
            VdsoFn::InitVtableTrapInfo => self.init_vtable_TrapInfo,
            VdsoFn::InitVtableSMP => self.init_vtable_SMP,
            VdsoFn::InitVtableVSpace => self.init_vtable_VSpace,
            VdsoFn::InitVtableUserData => self.init_vtable_UserData,
        }
    }
}

/// Fills the table, in an address space that has the shared object at `base`. Nothing else
/// of the shared object can be called before.
pub fn init_vdso_vtable(table: &mut VdsoVTable, base: u64)
    requires
        base + LAST_OFFSET <= u64::MAX,
    ensures
        forall|f: VdsoFn|
            #[trigger] final(table).get(f) == Some((base + f.offset()) as u64),
        final(table).is_for(base),
{
    table.kernel_init_main = Some(base + 0x4168);
    table.kernel_init_secondary = Some(base + 0x4334);
    table.process_init = Some(base + 0x45d2);
    table.process_drop = Some(base + 0x4572);
    table.process_reinit = Some(base + 0x485c);
    table.user_init = Some(base + 0x52fa);
    table.user_init_with_vspace = Some(base + 0x5318);
    table.user_scheduler_addr = Some(base + 0x5388);
    table.push_task_into_current = Some(base + 0x4b9a);
    table.push_task = Some(base + 0x4a98);
    table.push_task_into_process = Some(base + 0x4bea);
    table.current_vspace = Some(base + 0x4100);
    table.trap_handler = Some(base + 0x4ec6);
    table.current_task_ptr = Some(base + 0x4098);
    table.set_current_task_ptr = Some(base + 0x4c76);
    table.take_current_stack = Some(base + 0x4ce2);
    table.raw_trap_entry = Some(base + 0x8f4);
    table.raw_thread_entry = Some(base + 0x924);
    table.raw_run_task = Some(base + 0x98e);
    table.raw_kschedule = Some(base + 0x944);
    table.init_log = Some(base + 0x5a22);
    table.init_vtable_Task = Some(base + 0x57a4);
    table.init_vtable_Stack = Some(base + 0x5770);
    table.init_vtable_Context = Some(base + 0x571c);
    table.init_vtable_TrapInfo = Some(base + 0x5810);
    table.init_vtable_SMP = Some(base + 0x574c);
    table.init_vtable_VSpace = Some(base + 0x5868);
    table.init_vtable_UserData = Some(base + 0x5844);
}

/// Every function has a place of its own in the shared object.
pub proof fn law_functions_have_their_own_places(f: VdsoFn, g: VdsoFn)
    ensures
        f.offset() <= LAST_OFFSET,
        f.offset() == g.offset() ==> f == g,
{
}

/// In two address spaces that have the shared object at different places, a function is at
/// the same distance from the object's beginning.
pub proof fn law_tables_differ_by_their_bases(
    a: VdsoVTable,
    b: VdsoVTable,
    base_a: u64,
    base_b: u64,
    f: VdsoFn,
)
    requires
        base_a + LAST_OFFSET <= u64::MAX,
        base_b + LAST_OFFSET <= u64::MAX,
        a.get(f) == Some((base_a + f.offset()) as u64),
        b.get(f) == Some((base_b + f.offset()) as u64),
    ensures
        a.get(f).unwrap() - base_a == b.get(f).unwrap() - base_b,
{
}

} // verus!
