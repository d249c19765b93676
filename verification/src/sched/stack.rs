//! Stacks of kernel threads and of the scheduler.
//!
//! An allocation begins with the stack's header, and the stack follows. It grows down from
//! the end of the allocation, so a function that runs on it never reaches the header.

use vstd::prelude::*;

verus! {

/// The header of a stack.
#[derive(Clone, Copy, Debug, Eq, PartialEq, Structural)]
pub struct VschedStackImpl {
    /// The high end of the stack.
    pub base: usize,
    pub magic: u64,
}

/// What the header of a stack holds as long as nothing overwrote it.
pub const VSI_MAGIC: u64 = 0xdeadbeefcafebabe;

/// The bytes of a header.
pub const STACK_HEADER_SIZE: usize = 16;

/// How stacks are aligned.
pub const STACK_ALIGN: usize = 16;

/// An allocation: its size, its alignment, and where in it the stack begins.
#[derive(Clone, Copy, Debug, Eq, PartialEq, Structural)]
pub struct StackLayout {
    pub size: usize,
    pub align: usize,
    pub stack_offset: usize,
}

/// The allocation of a stack of `stack_size` bytes. An allocation is no larger than
/// `isize::MAX`, rounded up to its alignment.
pub fn stack_allocation_layout(stack_size: usize) -> (layout: StackLayout)
    requires
        stack_size + STACK_HEADER_SIZE + STACK_ALIGN <= isize::MAX,
    ensures
        layout == (StackLayout {
            size: (STACK_HEADER_SIZE + stack_size) as usize,
            align: STACK_ALIGN,
            stack_offset: STACK_HEADER_SIZE,
        }),
{
    StackLayout {
        size: STACK_HEADER_SIZE + stack_size,
        align: STACK_ALIGN,
        stack_offset: STACK_HEADER_SIZE,
    }
}

impl VschedStackImpl {
    /// Whether the header is that of a stack.
    pub open spec fn valid(self) -> bool {
        self.magic == VSI_MAGIC && self.base != 0
    }

    /// The high end of the stack.
    pub fn base(&self) -> (base: usize)
        requires
            self.valid(),
        ensures
            base == self.base,
    {
        self.base
    }
}

/// Makes the header of a stack of `stack_size` bytes that was allocated at `ptr`.
pub fn alloc_stack(ptr: usize, stack_size: usize) -> (header: VschedStackImpl)
    requires
        ptr != 0,
        stack_size + STACK_HEADER_SIZE + STACK_ALIGN <= isize::MAX,
        ptr + STACK_HEADER_SIZE + stack_size <= usize::MAX,
    ensures
        header == (VschedStackImpl {
            base: (ptr + STACK_HEADER_SIZE + stack_size) as usize,
            magic: VSI_MAGIC,
        }),
        header.valid(),
{
    let layout: StackLayout = stack_allocation_layout(stack_size);
    VschedStackImpl { base: ptr + layout.stack_offset + stack_size, magic: VSI_MAGIC }
}

/// A stack lies within its allocation, after the header and up to the end.
pub proof fn law_stack_spares_its_header(ptr: usize, stack_size: usize, header: VschedStackImpl)
    requires
        header.base == ptr + STACK_HEADER_SIZE + stack_size,
    ensures
        header.base - stack_size == ptr + STACK_HEADER_SIZE,
        forall|used: nat|
            #![trigger header.base - used]
            used <= stack_size ==> ptr + STACK_HEADER_SIZE <= header.base - used <= header.base,
{
}

/// A stack whose allocation and size are aligned begins at an aligned address and ends at
/// one.
pub proof fn law_stack_is_aligned(ptr: usize, stack_size: usize, header: VschedStackImpl)
    requires
        header.base == ptr + STACK_HEADER_SIZE + stack_size,
        ptr % STACK_ALIGN == 0,
        stack_size % STACK_ALIGN == 0,
    ensures
        header.base % STACK_ALIGN == 0,
        (header.base - stack_size) % (STACK_ALIGN as int) == 0,
{
}

} // verus!
