//! The scheduler's data in a user address space, seen from the kernel.
//!
//! Data that kernel and user space share lies in the same physical pages for both. Data
//! that each process has a copy of is found in five steps: the offset in the scheduler's
//! image, where the process has the image, the user address, the physical address by the
//! process's page table, and the kernel address of that.

use std::collections::BTreeMap;

use vstd::prelude::*;

verus! {

pub const PAGE_SIZE: usize = 4096;

/// The lowest address of the kernel.
pub const KERNEL_BASE: u64 = 0xffffffc000000000;

/// The first address of the page that holds `addr`.
pub open spec fn page_of(addr: int) -> int {
    addr - addr % 4096
}

/// The last page of the range of `len` bytes at `addr`. An empty range has the page of its
/// address.
pub open spec fn last_page_of(addr: int, len: int) -> int {
    if len == 0 {
        page_of(addr)
    } else {
        page_of(addr + len - 1)
    }
}

/// Whether the pages from `first` to `last` are mapped to physical pages that follow each
/// other.
pub open spec fn maps_in_a_row(pages: Map<usize, usize>, first: int, last: int) -> bool {
    &&& pages.contains_key(first as usize)
    &&& forall|page: int|
        #![trigger pages.contains_key(page as usize)]
        first <= page <= last && page % 4096 == 0 ==> pages.contains_key(page as usize)
            && pages[page as usize] == pages[first as usize] + (page - first)
}

/// An address space: where it has the scheduler's image, and the physical address of each
/// of its pages.
pub struct AddrSpaceView {
    pub vdso_base: usize,
    pub pages: BTreeMap<usize, usize>,
}

/// Where the kernel has the data that it shares with user space, and the scheduler's image.
#[derive(Clone, Copy, Debug, Eq, PartialEq, Structural)]
pub struct VschedUserDataImpl {
    pub vvar_start: usize,
    pub vvar_size: usize,
    pub vdso_start: usize,
    pub vdso_size: usize,
    /// What is added to a physical address to get the kernel's address of it.
    pub phys_virt_offset: usize,
}

proof fn lemma_row_is_whole(pages: Map<usize, usize>, first: int, last: int, end: int)
    requires
        pages.contains_key(first as usize),
        last < end,
        forall|p: int|
            #![trigger pages.contains_key(p as usize)]
            first <= p < end && p % 4096 == 0 ==> pages.contains_key(p as usize)
                && pages[p as usize] == pages[first as usize] + (p - first),
    ensures
        maps_in_a_row(pages, first, last),
{
}

/// Where the kernel can see the range of `len` bytes at `user_va` of an address space, if
/// the whole range is mapped, to physical pages that follow each other.
pub fn translate_user_range(
    pages: &BTreeMap<usize, usize>,
    phys_virt_offset: usize,
    user_va: usize,
    len: usize,
) -> (addr: Option<usize>)
    requires
        pages@.contains_key(page_of(user_va as int) as usize) ==> pages@[page_of(
            user_va as int,
        ) as usize] + phys_virt_offset + user_va % 4096 <= usize::MAX,
    ensures
        addr.is_some() == (user_va + len <= usize::MAX && last_page_of(user_va as int, len as int)
            + PAGE_SIZE <= usize::MAX && maps_in_a_row(
            pages@,
            page_of(user_va as int),
            last_page_of(user_va as int, len as int),
        )),
        addr matches Some(a) ==> a == pages@[page_of(user_va as int) as usize] + phys_virt_offset
            + user_va % 4096,
{
    broadcast use vstd::std_specs::btree::group_btree_axioms;

    let end: usize = match user_va.checked_add(len) {
        Some(end) => end,
        None => {
            return None;
        },
    };
    assert(user_va - user_va % 4096 == page_of(user_va as int));
    let first_page: usize = user_va - user_va % PAGE_SIZE;
    let last_page: usize = if len == 0 {
        first_page
    } else {
        (end - 1) - (end - 1) % PAGE_SIZE
    };
    let ghost first = page_of(user_va as int);
    let ghost last = last_page_of(user_va as int, len as int);
    assert(first_page == first && last_page == last);
    let first_pa: usize = match pages.get(&first_page) {
        Some(pa) => *pa,
        None => {
            return None;
        },
    };
    let mut page: usize = first_page;
    while page <= last_page
        invariant
            first_page == first,
            last_page == last,
            first <= page,
            page <= last + 4096,
            page % 4096 == 0,
            first % 4096 == 0,
            last % 4096 == 0,
            user_va + len <= usize::MAX,
            last == last_page_of(user_va as int, len as int),
            first == page_of(user_va as int),
            pages@.contains_key(first as usize),
            first_pa == pages@[first as usize],
            forall|p: int|
                #![trigger pages@.contains_key(p as usize)]
                first <= p < page && p % 4096 == 0 ==> pages@.contains_key(p as usize)
                    && pages@[p as usize] == first_pa + (p - first),
        decreases last_page + 4096 - page,
    {
        let pa: usize = match pages.get(&page) {
            Some(pa) => *pa,
            None => {
                assert(!pages@.contains_key((page as int) as usize));
                return None;
            },
        };
        assert(pages@.contains_key((page as int) as usize));
        if pa < first_pa || pa - first_pa != page - first_page {
            return None;
        }
        page = match page.checked_add(PAGE_SIZE) {
            Some(next) => next,
            None => {
                assert(last + 4096 > usize::MAX);
                return None;
            },
        };
        assert forall|p: int|
            #![trigger pages@.contains_key(p as usize)]
            first <= p < page && p % 4096 == 0 implies pages@.contains_key(p as usize)
            && pages@[p as usize] == first_pa + (p - first) by {
            if p >= page - 4096 {
                assert(p == page - 4096);
            }
        }
    }
    assert(page >= last + 4096);
    proof {
        lemma_row_is_whole(pages@, first, last, page as int);
    }
    let page_offset: usize = user_va - first_page;
    Some(first_pa + phys_virt_offset + page_offset)
}

/// Every byte of a range that was translated is where the translation says: the range is
/// one for the kernel too.
pub proof fn law_translated_range_is_whole(
    pages: Map<usize, usize>,
    phys_virt_offset: usize,
    user_va: usize,
    len: usize,
    addr: usize,
    i: nat,
)
    requires
        user_va + len <= usize::MAX,
        maps_in_a_row(pages, page_of(user_va as int), last_page_of(user_va as int, len as int)),
        addr == pages[page_of(user_va as int) as usize] + phys_virt_offset + user_va % 4096,
        i < len,
    ensures
        pages.contains_key(page_of(user_va + i) as usize),
        pages[page_of(user_va + i) as usize] + phys_virt_offset + (user_va + i) % 4096 == addr + i,
{
    let page = page_of(user_va + i);
    let first = page_of(user_va as int);
    assert(page % 4096 == 0);
    assert(first <= page <= last_page_of(user_va as int, len as int));
    assert(pages.contains_key(page as usize));
}

impl VschedUserDataImpl {
    /// Whether the two areas end within the address range.
    pub open spec fn wf(self) -> bool {
        self.vvar_start + self.vvar_size <= usize::MAX && self.vdso_start + self.vdso_size
            <= usize::MAX
    }

    /// Whether a range lies in the data that kernel and user space share.
    pub open spec fn in_vvar(self, pos: usize, len: usize) -> bool {
        self.vvar_start <= pos && pos + len <= self.vvar_start + self.vvar_size
    }

    /// Whether a range lies in the scheduler's image.
    pub open spec fn in_vdso(self, pos: usize, len: usize) -> bool {
        self.vdso_start <= pos && pos + len <= self.vdso_start + self.vdso_size
    }

    /// Whether `vspace` is the address of an address space. A small number stands for the
    /// address space in use, as no number at all does.
    pub open spec fn is_aspace(vspace: Option<usize>) -> bool {
        vspace matches Some(ptr) && ptr as u64 >= KERNEL_BASE
    }

    /// Where the address space that is meant has the scheduler's image.
    pub open spec fn image_base(
        vspace: Option<usize>,
        aspace: AddrSpaceView,
        current_vdso_base: usize,
    ) -> usize {
        if VschedUserDataImpl::is_aspace(vspace) {
            aspace.vdso_base
        } else {
            current_vdso_base
        }
    }

    /// Where the kernel can see what an address space has of the scheduler's data that the
    /// kernel has at `pos`, `len` bytes long; 0 if that is nowhere.
    ///
    /// `aspace` is the address space at `vspace`, if that is one. `current_vdso_base` is
    /// where the address space in use has the scheduler's image. A user address is returned
    /// for the address space in use: its page table is loaded, and the kernel may read user
    /// pages.
    pub fn get_user_data(
        &self,
        pos: usize,
        len: usize,
        vspace: Option<usize>,
        aspace: &AddrSpaceView,
        current_vdso_base: usize,
    ) -> (addr: usize)
        requires
            self.wf(),
            self.in_vdso(pos, len) ==> ({
                let base = VschedUserDataImpl::image_base(vspace, *aspace, current_vdso_base);
                let user_va = base + (pos - self.vdso_start);
                &&& user_va <= usize::MAX
                &&& VschedUserDataImpl::is_aspace(vspace) && aspace.pages@.contains_key(
                    page_of(user_va) as usize,
                ) ==> aspace.pages@[page_of(user_va) as usize] + self.phys_virt_offset + user_va
                    % 4096 <= usize::MAX
            }),
        ensures
            addr == ({
                let base = VschedUserDataImpl::image_base(vspace, *aspace, current_vdso_base);
                let user_va = base + (pos - self.vdso_start);
                if pos + len > usize::MAX {
                    0
                } else if self.in_vvar(pos, len) {
                    pos as int
                } else if !self.in_vdso(pos, len) || base == 0 {
                    0
                } else if !VschedUserDataImpl::is_aspace(vspace) {
                    user_va
                } else if user_va + len <= usize::MAX && last_page_of(user_va, len as int)
                    + PAGE_SIZE <= usize::MAX && maps_in_a_row(
                    aspace.pages@,
                    page_of(user_va),
                    last_page_of(user_va, len as int),
                ) {
                    aspace.pages@[page_of(user_va) as usize] + self.phys_virt_offset + user_va
                        % 4096
                } else {
                    0
                }
            }),
    {
        let end: usize = match pos.checked_add(len) {
            Some(end) => end,
            None => {
                return 0;
            },
        };
        let vvar_end: usize = self.vvar_start + self.vvar_size;
        if pos >= self.vvar_start && end <= vvar_end {
            return pos;
        }
        let vdso_end: usize = self.vdso_start + self.vdso_size;
        if pos >= self.vdso_start && end <= vdso_end {
            let offset: usize = pos - self.vdso_start;
            let explicit: bool = match vspace {
                Some(ptr) => ptr as u64 >= KERNEL_BASE,
                None => false,
            };
            let user_vdso_base: usize = if explicit {
                aspace.vdso_base
            } else {
                current_vdso_base
            };
            if user_vdso_base == 0 {
                return 0;
            }
            let user_va: usize = user_vdso_base + offset;
            if explicit {
                return match translate_user_range(
                    &aspace.pages,
                    self.phys_virt_offset,
                    user_va,
                    len,
                ) {
                    Some(addr) => addr,
                    None => 0,
                };
            }
            return user_va;
        }
        0
    }
}

} // verus!
