//! The functions of the example shared object.

use vstd::prelude::*;

verus! {

/// A function of the shared object.
#[derive(Clone, Copy, Debug, Eq, PartialEq, Structural)]
pub enum VdsoFn {
    GetShared,
    SetShared,
    GetPrivate,
    SetPrivate,
    TestArgs,
    TestCall,
    InitVtableTestIf,
}

/// Where the shared object's functions are. None is known before the table is filled.
#[derive(Clone, Copy, Debug, Eq, PartialEq, Structural)]
#[allow(non_snake_case)]
pub struct VdsoVTable {
    pub get_shared: Option<u64>,
    pub set_shared: Option<u64>,
    pub get_private: Option<u64>,
    pub set_private: Option<u64>,
    pub test_args: Option<u64>,
    pub test_call: Option<u64>,
    pub init_vtable_TestIf: Option<u64>,
}

/// The last offset of a function in the shared object.
pub const LAST_OFFSET: u64 = 0x1330;

impl VdsoFn {
    /// Where in the shared object the function is.
    pub open spec fn offset(self) -> u64 {
        match self {
            VdsoFn::GetShared => 0x11d2,
            VdsoFn::SetShared => 0x12da,
            VdsoFn::GetPrivate => 0x11b6,
            VdsoFn::SetPrivate => 0x12be,
            VdsoFn::TestArgs => 0x1306,
            VdsoFn::TestCall => 0x1330,
            VdsoFn::InitVtableTestIf => 0x11f8,
        }
    }
}

impl VdsoVTable {
    /// What the table says of a function.
    pub open spec fn get(self, f: VdsoFn) -> Option<u64> {
        match f {
            VdsoFn::GetShared => self.get_shared,
            VdsoFn::SetShared => self.set_shared,
            VdsoFn::GetPrivate => self.get_private,
            VdsoFn::SetPrivate => self.set_private,
            VdsoFn::TestArgs => self.test_args,
            VdsoFn::TestCall => self.test_call,
            VdsoFn::InitVtableTestIf => self.init_vtable_TestIf,
        }
    }

    /// Whether every function is where the shared object at `base` has it.
    pub open spec fn is_for(self, base: u64) -> bool {
        forall|f: VdsoFn| #[trigger] self.get(f) == Some((base + f.offset()) as u64)
    }

    /// The table before it is filled.
    pub fn new() -> (table: Self)
        ensures
            forall|f: VdsoFn| (#[trigger] table.get(f)).is_none(),
    {
        VdsoVTable {
            get_shared: None,
            set_shared: None,
            get_private: None,
            set_private: None,
            test_args: None,
            test_call: None,
            init_vtable_TestIf: None,
        }
    }

    /// Where a function is called, once the table is filled.
    pub fn entry(&self, f: VdsoFn) -> (addr: Option<u64>)
        ensures
            addr == self.get(f),
    {
        match f {
            VdsoFn::GetShared => self.get_shared,
            VdsoFn::SetShared => self.set_shared,
            VdsoFn::GetPrivate => self.get_private,
            VdsoFn::SetPrivate => self.set_private,
            VdsoFn::TestArgs => self.test_args,
            VdsoFn::TestCall => self.test_call,
            VdsoFn::InitVtableTestIf => self.init_vtable_TestIf,
        }
    }
}

/// Fills the table, in an address space that has the shared object at `base`. Nothing else
/// of the shared object can be called before.
pub fn init_vdso_vtable(table: &mut VdsoVTable, base: u64)
    requires
        base + LAST_OFFSET <= u64::MAX,
    ensures
        forall|f: VdsoFn|
            #[trigger] final(table).get(f) == Some((base + f.offset()) as u64),
        final(table).is_for(base),
{
    table.get_shared = Some(base + 0x11d2);
    table.set_shared = Some(base + 0x12da);
    table.get_private = Some(base + 0x11b6);
    table.set_private = Some(base + 0x12be);
    table.test_args = Some(base + 0x1306);
    table.test_call = Some(base + 0x1330);
    table.init_vtable_TestIf = Some(base + 0x11f8);
}

/// Every function has a place of its own in the shared object.
pub proof fn law_functions_have_their_own_places(f: VdsoFn, g: VdsoFn)
    ensures
        f.offset() <= LAST_OFFSET,
        f.offset() == g.offset() ==> f == g,
{
}

/// In two address spaces that have the shared object at different places, a function is at
/// the same distance from the object's beginning.
pub proof fn law_tables_differ_by_their_bases(
    a: VdsoVTable,
    b: VdsoVTable,
    base_a: u64,
    base_b: u64,
    f: VdsoFn,
)
    requires
        base_a + LAST_OFFSET <= u64::MAX,
        base_b + LAST_OFFSET <= u64::MAX,
        a.get(f) == Some((base_a + f.offset()) as u64),
        b.get(f) == Some((base_b + f.offset()) as u64),
    ensures
        a.get(f).unwrap() - base_a == b.get(f).unwrap() - base_b,
{
}

} // verus!
