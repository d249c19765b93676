//! The functions of the message queues' shared object.

use vstd::prelude::*;

verus! {

/// A function of the shared object.
#[derive(Clone, Copy, Debug, Eq, PartialEq, Structural)]
pub enum VdsoFn {
    RegisterProcess,
    DequePush,
    DequePop,
    SlotrefFromId,
    GetPid,
    SetPid,
    MapAddEntry,
    MapGetNtfId,
    MapPopNtfId,
}

/// Where the shared object's functions are. None is known before the table is filled.
#[derive(Clone, Copy, Debug, Eq, PartialEq, Structural)]
#[allow(non_snake_case)]
pub struct VdsoVTable {
    pub register_process: Option<u64>,
    pub deque_push: Option<u64>,
    pub deque_pop: Option<u64>,
    pub slotref_from_id: Option<u64>,
    pub get_pid: Option<u64>,
    pub set_pid: Option<u64>,
    pub map_add_entry: Option<u64>,
    pub map_get_ntf_id: Option<u64>,
    pub map_pop_ntf_id: Option<u64>,
}

/// The last offset of a function in the shared object.
pub const LAST_OFFSET: u64 = 0x24fe;

impl VdsoFn {
    /// Where in the shared object the function is.
    pub open spec fn offset(self) -> u64 {
        match self {
            VdsoFn::RegisterProcess => 0x2140,
            VdsoFn::DequePush => 0x6fe,
            VdsoFn::DequePop => 0x4ca,
            VdsoFn::SlotrefFromId => 0x24fe,
            VdsoFn::GetPid => 0x934,
            VdsoFn::SetPid => 0x2408,
            VdsoFn::MapAddEntry => 0xa24,
            VdsoFn::MapGetNtfId => 0x1d8e,
            VdsoFn::MapPopNtfId => 0x1ec6,
        }
    }
}

impl VdsoVTable {
    /// What the table says of a function.
    pub open spec fn get(self, f: VdsoFn) -> Option<u64> {
        match f {
            VdsoFn::RegisterProcess => self.register_process,
            VdsoFn::DequePush => self.deque_push,
            VdsoFn::DequePop => self.deque_pop,
            VdsoFn::SlotrefFromId => self.slotref_from_id,
            VdsoFn::GetPid => self.get_pid,
            VdsoFn::SetPid => self.set_pid,
            VdsoFn::MapAddEntry => self.map_add_entry,
            VdsoFn::MapGetNtfId => self.map_get_ntf_id,
            VdsoFn::MapPopNtfId => self.map_pop_ntf_id,
        }
    }

    /// Whether every function is where the shared object at `base` has it.
    pub open spec fn is_for(self, base: u64) -> bool {
        forall|f: VdsoFn| #[trigger] self.get(f) == Some((base + f.offset()) as u64)
    }

    /// The table before it is filled.
    pub fn new() -> (table: Self)
        ensures
            forall|f: VdsoFn| (#[trigger] table.get(f)).is_none(),
    {
        VdsoVTable {
            register_process: None,
            deque_push: None,
            deque_pop: None,
            slotref_from_id: None,
            get_pid: None,
            set_pid: None,
            map_add_entry: None,
            map_get_ntf_id: None,
            map_pop_ntf_id: None,
        }
    }

    /// Where a function is called, once the table is filled.
    pub fn entry(&self, f: VdsoFn) -> (addr: Option<u64>)
        ensures
            addr == self.get(f),
    {
        match f {
            VdsoFn::RegisterProcess => self.register_process,
            VdsoFn::DequePush => self.deque_push,
            VdsoFn::DequePop => self.deque_pop,
            VdsoFn::SlotrefFromId => self.slotref_from_id,
            VdsoFn::GetPid => self.get_pid,
            VdsoFn::SetPid => self.set_pid,
            VdsoFn::MapAddEntry => self.map_add_entry,
            VdsoFn::MapGetNtfId => self.map_get_ntf_id,
            VdsoFn::MapPopNtfId => self.map_pop_ntf_id,
        }
    }
}

/// Fills the table, in an address space that has the shared object at `base`. Nothing else
/// of the shared object can be called before.
pub fn init_vdso_vtable(table: &mut VdsoVTable, base: u64)
    requires
        base + LAST_OFFSET <= u64::MAX,
    ensures
        forall|f: VdsoFn|
            #[trigger] final(table).get(f) == Some((base + f.offset()) as u64),
        final(table).is_for(base),
{
    table.register_process = Some(base + 0x2140);
    table.deque_push = Some(base + 0x6fe);
    table.deque_pop = Some(base + 0x4ca);
    table.slotref_from_id = Some(base + 0x24fe);
    table.get_pid = Some(base + 0x934);
    table.set_pid = Some(base + 0x2408);
    table.map_add_entry = Some(base + 0xa24);
    table.map_get_ntf_id = Some(base + 0x1d8e);
    table.map_pop_ntf_id = Some(base + 0x1ec6);
}

/// Every function has a place of its own in the shared object.
pub proof fn law_functions_have_their_own_places(f: VdsoFn, g: VdsoFn)
    ensures
        f.offset() <= LAST_OFFSET,
        f.offset() == g.offset() ==> f == g,
{
}

/// In two address spaces that have the shared object at different places, a function is at
/// the same distance from the object's beginning.
pub proof fn law_tables_differ_by_their_bases(
    a: VdsoVTable,
    b: VdsoVTable,
    base_a: u64,
    base_b: u64,
    f: VdsoFn,
)
    requires
        base_a + LAST_OFFSET <= u64::MAX,
        base_b + LAST_OFFSET <= u64::MAX,
        a.get(f) == Some((base_a + f.offset()) as u64),
        b.get(f) == Some((base_b + f.offset()) as u64),
    ensures
        a.get(f).unwrap() - base_a == b.get(f).unwrap() - base_b,
{
}

} // verus!
