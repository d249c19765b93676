//! Where a shared object and its data are in memory.
//!
//! The data that all address spaces share lies in the pages right below the object. The
//! kernel has all memory at a fixed distance from its physical address.

use std::collections::BTreeMap;

use vstd::prelude::*;

use crate::vdso::elf::{checked_vdso_runtime_size, image_size};
use crate::vdso::starry::StarryVvar;

verus! {

/// Where a shared object and the data below it are, by physical address.
#[derive(Clone, Copy, Debug, Eq, PartialEq, Structural)]
pub struct VdsoPlacement {
    pub vdso_start_pa: usize,
    pub vdso_size: usize,
    pub vvar_start_pa: usize,
    pub vvar_size: usize,
}

impl VdsoPlacement {
    /// That of an object that has not been loaded.
    pub open spec fn nowhere() -> VdsoPlacement {
        VdsoPlacement { vdso_start_pa: 0, vdso_size: 0, vvar_start_pa: 0, vvar_size: 0 }
    }

    /// That of an object that has not been loaded.
    pub fn new() -> (placement: Self)
        ensures
            placement == VdsoPlacement::nowhere(),
    {
        VdsoPlacement { vdso_start_pa: 0, vdso_size: 0, vvar_start_pa: 0, vvar_size: 0 }
    }

    /// That of an object which the kernel has at `vdso_start`.
    pub open spec fn at(
        vdso_start: usize,
        vdso_size: usize,
        vvar_size: usize,
        phys_virt_offset: usize,
    ) -> VdsoPlacement {
        VdsoPlacement {
            vdso_start_pa: (vdso_start - phys_virt_offset) as usize,
            vdso_size,
            vvar_start_pa: (vdso_start - vvar_size - phys_virt_offset) as usize,
            vvar_size,
        }
    }
}

/// Says where an object is that the kernel has at `vdso_start` and that takes `vdso_size`
/// bytes, with `vvar_size` bytes of data below it.
pub fn place_vdso(
    vdso_start: usize,
    vdso_size: usize,
    vvar_size: usize,
    phys_virt_offset: usize,
) -> (placement: VdsoPlacement)
    requires
        phys_virt_offset + vvar_size <= vdso_start,
    ensures
        placement == VdsoPlacement::at(vdso_start, vdso_size, vvar_size, phys_virt_offset),
{
    let vvar_start: usize = vdso_start - vvar_size;
    VdsoPlacement {
        vvar_start_pa: vvar_start - phys_virt_offset,
        vvar_size,
        vdso_start_pa: vdso_start - phys_virt_offset,
        vdso_size,
    }
}

/// Says where the scheduler's shared object is, once the kernel has mapped it at
/// `vdso_start`: its size is what its image takes when it is loaded. There is no answer for
/// an image that cannot be loaded.
pub fn vdso_init(image: &[u8], vdso_start: usize, vvar_size: usize, phys_virt_offset: usize) -> (
placement: Option<VdsoPlacement>)
    requires
        phys_virt_offset + vvar_size <= vdso_start,
    ensures
        placement == (match image_size(image@) {
            Some(size) => Some(VdsoPlacement::at(vdso_start, size, vvar_size, phys_virt_offset)),
            None => None,
        }),
{
    match checked_vdso_runtime_size(image) {
        Some(size) => Some(place_vdso(vdso_start, size, vvar_size, phys_virt_offset)),
        None => None,
    }
}

/// What the shared counter holds once the object with the task table is loaded.
pub const STARRY_VVAR_MARK: u64 = 0x5354_4152_5259_5641;

/// Says where the shared object with the task table is, once the kernel has mapped it at
/// `vdso_start`, and marks its shared data, so that every address space that has the same
/// data finds the mark.
pub fn starry_vsched_init(
    image: &[u8],
    vdso_start: usize,
    vvar_size: usize,
    phys_virt_offset: usize,
    vvar: &mut StarryVvar,
) -> (placement: Option<VdsoPlacement>)
    requires
        phys_virt_offset + vvar_size <= vdso_start,
    ensures
        placement == (match image_size(image@) {
            Some(size) => Some(VdsoPlacement::at(vdso_start, size, vvar_size, phys_virt_offset)),
            None => None,
        }),
        final(vvar).stage_a_value == STARRY_VVAR_MARK as usize,
        final(vvar).task_table == old(vvar).task_table,
{
    vvar.stage_a_set_shared(STARRY_VVAR_MARK as usize);
    vdso_init(image, vdso_start, vvar_size, phys_virt_offset)
}

/// Where the kernel has the shared data, once there is some.
pub fn starry_vvar_data(vvar_start_pa: usize, phys_virt_offset: usize) -> (addr: usize)
    requires
        vvar_start_pa != 0,
        vvar_start_pa + phys_virt_offset <= usize::MAX,
    ensures
        addr == vvar_start_pa + phys_virt_offset,
{
    vvar_start_pa + phys_virt_offset
}

/// How many bytes of an address space are looked for when `size` are asked for: no fewer than
/// the image takes when it is loaded.
pub fn valloc(size: usize, runtime_size: usize) -> (span: usize)
    ensures
        span == (if size < runtime_size {
            runtime_size
        } else {
            size
        }),
{
    if size < runtime_size {
        runtime_size
    } else {
        size
    }
}

/// How many pages are allocated for `size` bytes.
pub fn ppage_alloc(size: usize) -> (pages: usize)
    ensures
        pages == size / 4096,
{
    size / 4096
}

/// Where the kernel has what an address space has at `vaddr`. `pages` is the page table of
/// the address space, from pages to physical addresses.
pub fn get_kernel_vaddr(pages: &BTreeMap<usize, usize>, vaddr: usize, phys_virt_offset: usize) -> (
kernel: usize)
    requires
        pages@.contains_key((vaddr - vaddr % 4096) as usize),
        pages@[(vaddr - vaddr % 4096) as usize] + vaddr % 4096 + phys_virt_offset <= usize::MAX,
    ensures
        kernel == pages@[(vaddr - vaddr % 4096) as usize] + vaddr % 4096 + phys_virt_offset,
{
    broadcast use vstd::std_specs::btree::group_btree_axioms;

    let offset: usize = vaddr % 4096;
    let page_base: usize = vaddr - offset;
    let paddr: usize = *pages.get(&page_base).unwrap();
    paddr + offset + phys_virt_offset
}

/// The shared data ends where the object begins, in physical memory as in the kernel's.
pub proof fn law_data_lies_below_the_object(
    vdso_start: usize,
    vdso_size: usize,
    vvar_size: usize,
    phys_virt_offset: usize,
)
    requires
        phys_virt_offset + vvar_size <= vdso_start,
    ensures
        ({
            let placement = VdsoPlacement::at(vdso_start, vdso_size, vvar_size, phys_virt_offset);
            &&& placement.vvar_start_pa + placement.vvar_size == placement.vdso_start_pa
            &&& placement.vdso_start_pa + phys_virt_offset == vdso_start
            &&& placement.vvar_start_pa + phys_virt_offset == vdso_start - vvar_size
        }),
{
}

} // verus!
