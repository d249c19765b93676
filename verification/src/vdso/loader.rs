//! Loading the scheduler's shared object: into the kernel once, and from there into every
//! other address space.
//!
//! The first time, every segment gets pages of its own and is loaded and relocated. Later
//! an address space shares the pages of the shared data and of the code, and gets its own
//! copy of everything else.

use vstd::prelude::*;

use crate::vdso::elf::page_up;

verus! {

pub const PAGES_SIZE: usize = 4096;

/// How memory may be used.
#[derive(Clone, Copy, Debug, Eq, PartialEq, Structural)]
pub struct MappingFlags {
    pub read: bool,
    pub write: bool,
    pub execute: bool,
    pub user: bool,
}

/// A segment of the image at the address where it is mapped.
pub struct ElfSegment {
    pub vaddr: usize,
    pub size: usize,
    pub flags: MappingFlags,
    /// What the file has of the segment. What follows is 0.
    pub data: Option<Vec<u8>>,
}

/// A place in the image that holds an address: `count` bytes at `dst` hold `src`.
#[derive(Clone, Copy, Debug, Eq, PartialEq, Structural)]
pub struct RelocatePair {
    pub src: u64,
    pub dst: usize,
    pub count: usize,
}

/// Where the pages of a region come from.
#[derive(Clone, Copy, Debug, Eq, PartialEq, Structural)]
pub enum PageSource {
    /// They are allocated.
    Allocate,
    /// They are allocated, and kept for the address spaces that share them.
    AllocateAndKeep,
    /// They are those of a region that was kept.
    Shared { region: usize },
}

/// What is written to a region.
pub enum RegionContent {
    /// Nothing: its pages hold what they should.
    Unchanged,
    /// The shared data as it is in the beginning.
    SharedData,
    /// The given bytes. `direct` says that the zeros are written at the region's own
    /// address, and not where the kernel has its pages.
    Bytes { bytes: Vec<u8>, direct: bool },
}

/// What is done for a region: its pages are mapped with `map_flags`, its content is
/// written, and the pages get `flags`.
pub struct RegionPlan {
    pub vaddr: usize,
    pub size: usize,
    pub pages: PageSource,
    pub map_flags: MappingFlags,
    pub flags: MappingFlags,
    pub content: RegionContent,
}

/// One of the things that are done for a region.
#[derive(Clone, Copy, Debug, Eq, PartialEq, Structural)]
pub enum RegionAction {
    /// Map its pages.
    MapPages { flags: MappingFlags },
    /// Write its content.
    Write,
    /// Say how its pages may be used from now on.
    Protect { flags: MappingFlags },
}

/// What is done for a region, in order.
pub open spec fn region_steps(plan: RegionPlan) -> Seq<RegionAction> {
    let map = seq![RegionAction::MapPages { flags: plan.map_flags }];
    let write = if plan.content is Unchanged {
        Seq::<RegionAction>::empty()
    } else {
        seq![RegionAction::Write]
    };
    let protect = if plan.flags == plan.map_flags {
        Seq::<RegionAction>::empty()
    } else {
        seq![RegionAction::Protect { flags: plan.flags }]
    };
    map + write + protect
}

/// Says what is done for a region, in order.
pub fn region_actions(plan: &RegionPlan) -> (actions: Vec<RegionAction>)
    ensures
        actions@ == region_steps(*plan),
{
    let mut actions: Vec<RegionAction> = Vec::new();
    actions.push(RegionAction::MapPages { flags: plan.map_flags });
    if let RegionContent::Unchanged = plan.content {
    } else {
        actions.push(RegionAction::Write);
    }
    if plan.flags != plan.map_flags {
        actions.push(RegionAction::Protect { flags: plan.flags });
    }
    assert(actions@ =~= region_steps(*plan));
    actions
}

/// The size of the area in which an image of `image_len` bytes is mapped: a page more than
/// the file, for what the file does not hold.
pub fn vdso_size(image_len: usize) -> (size: usize)
    requires
        image_len + 2 * PAGES_SIZE <= usize::MAX,
    ensures
        size == page_up(image_len as int) + PAGES_SIZE,
{
    let last: usize = image_len + (PAGES_SIZE - 1);
    (last - last % PAGES_SIZE) + PAGES_SIZE
}

/// The size of the area of the shared data, which takes `data_size` bytes.
pub fn vvar_size(data_size: usize) -> (size: usize)
    requires
        data_size + PAGES_SIZE <= usize::MAX,
    ensures
        size == page_up(data_size as int),
{
    let last: usize = data_size + (PAGES_SIZE - 1);
    last - last % PAGES_SIZE
}

/// The lowest `n` bytes of a number, the lowest first.
pub open spec fn le_bytes(value: int, n: nat) -> Seq<u8>
    decreases n,
{
    if n == 0 {
        Seq::empty()
    } else {
        seq![(value % 256) as u8] + le_bytes(value / 256, (n - 1) as nat)
    }
}

/// Whether a relocation is for the region of `size` bytes at `vaddr`.
pub open spec fn is_in_region(pair: RelocatePair, vaddr: int, size: int) -> bool {
    vaddr <= pair.dst < vaddr + size
}

/// The bytes of a region after one relocation.
pub open spec fn relocated(bytes: Seq<u8>, vaddr: int, pair: RelocatePair) -> Seq<u8> {
    if is_in_region(pair, vaddr, bytes.len() as int) {
        let at = pair.dst - vaddr;
        Seq::new(
            bytes.len(),
            |i: int|
                if at <= i < at + pair.count {
                    le_bytes(pair.src as int, 8)[i - at]
                } else {
                    bytes[i]
                },
        )
    } else {
        bytes
    }
}

/// The bytes of a region after the first `n` relocations.
pub open spec fn relocated_by(
    bytes: Seq<u8>,
    vaddr: int,
    pairs: Seq<RelocatePair>,
    n: nat,
) -> Seq<u8>
    decreases n,
{
    if n == 0 {
        bytes
    } else {
        relocated(relocated_by(bytes, vaddr, pairs, (n - 1) as nat), vaddr, pairs[n - 1])
    }
}

/// What a segment holds before relocation, in `size` bytes: what the file has of it, and
/// then zeros.
pub open spec fn loaded(segment: ElfSegment, size: int) -> Seq<u8> {
    Seq::new(
        size as nat,
        |i: int|
            match segment.data {
                Some(data) => if i < data@.len() {
                    data@[i]
                } else {
                    0u8
                },
                None => 0u8,
            },
    )
}

/// Whether a segment can be mapped: it begins at a page, its end is an address, and the
/// file has no more of it than its pages hold.
pub open spec fn segment_ok(segment: ElfSegment) -> bool {
    segment.size != 0 ==> {
        &&& segment.vaddr % 4096 == 0
        &&& segment.vaddr + segment.size + 4095 <= usize::MAX
        &&& segment.data matches Some(data) ==> data@.len() <= page_up(segment.size as int)
    }
}

/// Whether the relocations can be done in a segment: they write no more bytes than an
/// address has, and none beyond the segment's pages.
pub open spec fn relocations_ok(segment: ElfSegment, pairs: Seq<RelocatePair>) -> bool {
    forall|i: int|
        #![trigger pairs[i]]
        0 <= i < pairs.len() && is_in_region(
            pairs[i],
            segment.vaddr as int,
            page_up(segment.size as int),
        ) ==> pairs[i].count <= 8 && pairs[i].dst + pairs[i].count <= segment.vaddr + page_up(
            segment.size as int,
        )
}

/// Whether no relocation is in a segment.
pub open spec fn no_relocation(segment: ElfSegment, pairs: Seq<RelocatePair>) -> bool {
    forall|i: int|
        #![trigger pairs[i]]
        0 <= i < pairs.len() ==> !is_in_region(
            pairs[i],
            segment.vaddr as int,
            page_up(segment.size as int),
        )
}

/// Whether the pages of a segment are shared by every address space: those of code are.
pub open spec fn is_shared(segment: ElfSegment, first: bool) -> bool {
    !first && segment.flags.execute
}

/// How a segment may be used in the end: by the kernel when it is loaded the first time, and
/// by user space later.
pub open spec fn final_flags(flags: MappingFlags, first: bool) -> MappingFlags {
    MappingFlags { user: !first, ..flags }
}

/// Whether a plan is the one for a segment. `index` is its number among the regions.
pub open spec fn is_plan_of(
    plan: RegionPlan,
    segment: ElfSegment,
    pairs: Seq<RelocatePair>,
    first: bool,
    index: int,
) -> bool {
    &&& plan.vaddr == segment.vaddr
    &&& plan.size == page_up(segment.size as int)
    &&& plan.pages == if first {
        PageSource::AllocateAndKeep
    } else if segment.flags.execute {
        PageSource::Shared { region: index as usize }
    } else {
        PageSource::Allocate
    }
    &&& plan.flags == final_flags(segment.flags, first)
    &&& plan.map_flags == (MappingFlags { write: true, user: false, ..plan.flags })
    &&& if is_shared(segment, first) {
        plan.content is Unchanged
    } else {
        &&& plan.content matches RegionContent::Bytes { bytes, direct }
        &&& direct == segment.data.is_none()
        &&& bytes@ == relocated_by(
            loaded(segment, plan.size as int),
            segment.vaddr as int,
            pairs,
            pairs.len(),
        )
    }
}

/// The segments among the first `n` that have a size.
pub open spec fn kept_segments(segments: Seq<ElfSegment>, n: nat) -> Seq<ElfSegment>
    decreases n,
{
    if n == 0 {
        Seq::empty()
    } else if segments[n - 1].size != 0 {
        kept_segments(segments, (n - 1) as nat).push(segments[n - 1])
    } else {
        kept_segments(segments, (n - 1) as nat)
    }
}

/// Whether a plan is the one for the shared data.
pub open spec fn is_plan_of_shared_data(
    plan: RegionPlan,
    vbase: usize,
    size: usize,
    first: bool,
) -> bool {
    &&& plan.vaddr == vbase
    &&& plan.size == size
    &&& plan.pages == if first {
        PageSource::AllocateAndKeep
    } else {
        PageSource::Shared { region: 0 }
    }
    &&& plan.flags == (MappingFlags { read: true, write: true, execute: false, user: !first })
    &&& plan.map_flags == plan.flags
    &&& if first {
        plan.content is SharedData
    } else {
        plan.content is Unchanged
    }
}

fn segment_bytes(segment: &ElfSegment, size: usize) -> (bytes: Vec<u8>)
    requires
        segment.data matches Some(data) ==> data@.len() <= size,
    ensures
        bytes@ == loaded(*segment, size as int),
{
    let mut bytes: Vec<u8> = Vec::new();
    let mut i: usize = 0;
    while i < size
        invariant
            i <= size,
            bytes@.len() == i,
            forall|j: int| 0 <= j < i ==> bytes@[j] == #[trigger] loaded(*segment, size as int)[j],
        decreases size - i,
    {
        let byte: u8 = match &segment.data {
            Some(data) => if i < data.len() {
                data[i]
            } else {
                0
            },
            None => 0,
        };
        bytes.push(byte);
        i += 1;
    }
    assert(bytes@ =~= loaded(*segment, size as int));
    bytes
}

proof fn lemma_le_bytes_len(value: int, n: nat)
    ensures
        le_bytes(value, n).len() == n,
    decreases n,
{
    if n > 0 {
        lemma_le_bytes_len(value / 256, (n - 1) as nat);
    }
}

/// The byte `i` of a number and those after it.
proof fn lemma_le_bytes_tail(value: int, n: nat, i: nat, rest: int)
    requires
        i < n,
        rest == le_shift(value, i),
    ensures
        le_bytes(value, n)[i as int] == (rest % 256) as u8,
    decreases n,
{
    lemma_le_bytes_len(value / 256, (n - 1) as nat);
    if i > 0 {
        lemma_le_shift_first(value, i);
        lemma_le_bytes_tail(value / 256, (n - 1) as nat, (i - 1) as nat, rest);
    }
}

/// A number without its lowest `i` bytes.
pub open spec fn le_shift(value: int, i: nat) -> int
    decreases i,
{
    if i == 0 {
        value
    } else {
        le_shift(value, (i - 1) as nat) / 256
    }
}

proof fn lemma_le_shift_first(value: int, i: nat)
    requires
        i > 0,
    ensures
        le_shift(value, i) == le_shift(value / 256, (i - 1) as nat),
    decreases i,
{
    reveal_with_fuel(le_shift, 2);
    if i > 1 {
        lemma_le_shift_first(value, (i - 1) as nat);
    }
}

fn relocate(bytes: &mut Vec<u8>, vaddr: usize, pair: RelocatePair)
    requires
        is_in_region(pair, vaddr as int, old(bytes)@.len() as int) ==> pair.count <= 8 && pair.dst
            + pair.count <= vaddr + old(bytes)@.len(),
    ensures
        final(bytes)@ == relocated(old(bytes)@, vaddr as int, pair),
{
    let len: usize = bytes.len();
    if vaddr <= pair.dst && pair.dst - vaddr < len {
        let at: usize = pair.dst - vaddr;
        let mut rest: u64 = pair.src;
        let mut i: usize = 0;
        while i < pair.count
            invariant
                i <= pair.count <= 8,
                at + pair.count <= len,
                bytes@.len() == len,
                bytes@.len() == old(bytes)@.len(),
                rest == le_shift(pair.src as int, i as nat),
                forall|j: int|
                    0 <= j < bytes@.len() ==> #[trigger] bytes@[j] == if at <= j < at + i {
                        le_bytes(pair.src as int, 8)[j - at]
                    } else {
                        old(bytes)@[j]
                    },
            decreases pair.count - i,
        {
            proof {
                lemma_le_bytes_tail(pair.src as int, 8, i as nat, rest as int);
            }
            bytes[at + i] = (rest % 256) as u8;
            rest = rest / 256;
            i += 1;
        }
        assert(bytes@ =~= relocated(old(bytes)@, vaddr as int, pair));
    }
}

proof fn lemma_relocated_len(bytes: Seq<u8>, vaddr: int, pairs: Seq<RelocatePair>, n: nat)
    ensures
        relocated_by(bytes, vaddr, pairs, n).len() == bytes.len(),
    decreases n,
{
    if n > 0 {
        lemma_relocated_len(bytes, vaddr, pairs, (n - 1) as nat);
    }
}

fn plan_segment(
    segment: &ElfSegment,
    pairs: &Vec<RelocatePair>,
    first: bool,
    index: usize,
) -> (plan: RegionPlan)
    requires
        segment.size != 0,
        segment_ok(*segment),
        relocations_ok(*segment, pairs@),
        is_shared(*segment, first) ==> no_relocation(*segment, pairs@),
    ensures
        is_plan_of(plan, *segment, pairs@, first, index as int),
{
    let last: usize = segment.size + (PAGES_SIZE - 1);
    let size: usize = last - last % PAGES_SIZE;
    let pages: PageSource = if first {
        PageSource::AllocateAndKeep
    } else if segment.flags.execute {
        PageSource::Shared { region: index }
    } else {
        PageSource::Allocate
    };
    let mut flags: MappingFlags = segment.flags;
    flags.user = !first;
    // While they are loaded and relocated, the pages can be written, but not used by user
    // space.
    let mut map_flags: MappingFlags = flags;
    map_flags.write = true;
    map_flags.user = false;
    if !first && segment.flags.execute {
        return RegionPlan {
            vaddr: segment.vaddr,
            size,
            pages,
            map_flags,
            flags,
            content: RegionContent::Unchanged,
        };
    }
    let mut bytes: Vec<u8> = segment_bytes(segment, size);
    let ghost start = bytes@;
    let mut i: usize = 0;
    while i < pairs.len()
        invariant
            i <= pairs@.len(),
            start == loaded(*segment, size as int),
            size == page_up(segment.size as int),
            start.len() == size,
            bytes@.len() == size,
            relocations_ok(*segment, pairs@),
            bytes@ == relocated_by(start, segment.vaddr as int, pairs@, i as nat),
        decreases pairs@.len() - i,
    {
        relocate(&mut bytes, segment.vaddr, pairs[i]);
        i += 1;
        proof {
            lemma_relocated_len(start, segment.vaddr as int, pairs@, i as nat);
        }
    }
    RegionPlan {
        vaddr: segment.vaddr,
        size,
        pages,
        map_flags,
        flags,
        content: RegionContent::Bytes { bytes, direct: segment.data.is_none() },
    }
}

/// Whether everything about the segments allows them to be mapped.
pub open spec fn image_ok(
    segments: Seq<ElfSegment>,
    pairs: Seq<RelocatePair>,
    first: bool,
) -> bool {
    forall|i: int|
        #![trigger segments[i]]
        0 <= i < segments.len() && segments[i].size != 0 ==> {
            &&& segment_ok(segments[i])
            &&& relocations_ok(segments[i], pairs)
            &&& is_shared(segments[i], first) ==> no_relocation(segments[i], pairs)
        }
}

/// Maps the shared object into an address space, in the area at `vbase`: says what is done
/// for each region, and where the object begins. The shared data comes first, and takes
/// `vvar_size` bytes. `first` says that the object is loaded, into the kernel; later it is
/// mapped into other address spaces. Segments without a size are left out.
pub fn map_so(
    vbase: usize,
    vvar_size: usize,
    segments: &Vec<ElfSegment>,
    pairs: &Vec<RelocatePair>,
    first: bool,
) -> (mapped: (Vec<RegionPlan>, usize))
    requires
        vbase + vvar_size <= usize::MAX,
        image_ok(segments@, pairs@, first),
    ensures
        mapped.1 == vbase + vvar_size,
        mapped.0@.len() == 1 + kept_segments(segments@, segments@.len()).len(),
        is_plan_of_shared_data(mapped.0@[0], vbase, vvar_size, first),
        forall|k: int|
            1 <= k < mapped.0@.len() ==> is_plan_of(
                #[trigger] mapped.0@[k],
                kept_segments(segments@, segments@.len())[k - 1],
                pairs@,
                first,
                k,
            ),
{
    let mut plans: Vec<RegionPlan> = Vec::new();
    let flags: MappingFlags = MappingFlags {
        read: true,
        write: true,
        execute: false,
        user: !first,
    };
    if first {
        plans.push(
            RegionPlan {
                vaddr: vbase,
                size: vvar_size,
                pages: PageSource::AllocateAndKeep,
                map_flags: flags,
                flags,
                content: RegionContent::SharedData,
            },
        );
    } else {
        plans.push(
            RegionPlan {
                vaddr: vbase,
                size: vvar_size,
                pages: PageSource::Shared { region: 0 },
                map_flags: flags,
                flags,
                content: RegionContent::Unchanged,
            },
        );
    }
    let mut i: usize = 0;
    while i < segments.len()
        invariant
            i <= segments@.len(),
            image_ok(segments@, pairs@, first),
            plans@.len() == 1 + kept_segments(segments@, i as nat).len(),
            is_plan_of_shared_data(plans@[0], vbase, vvar_size, first),
            forall|k: int|
                1 <= k < plans@.len() ==> is_plan_of(
                    #[trigger] plans@[k],
                    kept_segments(segments@, i as nat)[k - 1],
                    pairs@,
                    first,
                    k,
                ),
        decreases segments@.len() - i,
    {
        let ghost before = kept_segments(segments@, i as nat);
        if segments[i].size == 0 {
            i += 1;
            continue;
        }
        assert(segments@[i as int].size != 0);
        let index: usize = plans.len();
        let plan: RegionPlan = plan_segment(&segments[i], pairs, first, index);
        plans.push(plan);
        i += 1;
        assert(kept_segments(segments@, i as nat) == before.push(segments@[i - 1]));
    }
    (plans, vbase + vvar_size)
}

/// In the kernel nothing that was loaded can be used by user space, and in another address
/// space everything can; and what the image says of reading, writing and executing holds
/// in the end.
pub proof fn law_user_space_sees_its_own_mappings(
    plan: RegionPlan,
    segment: ElfSegment,
    pairs: Seq<RelocatePair>,
    first: bool,
    index: int,
)
    requires
        is_plan_of(plan, segment, pairs, first, index),
    ensures
        plan.flags.user == !first,
        plan.flags.read == segment.flags.read,
        plan.flags.write == segment.flags.write,
        plan.flags.execute == segment.flags.execute,
{
}

/// A segment is mapped so that it can be written and user space cannot use it. User space can
/// from the last step on, when the segment has been loaded and relocated, and only in another
/// address space than the kernel's.
pub proof fn law_user_space_waits_for_the_content(
    plan: RegionPlan,
    segment: ElfSegment,
    pairs: Seq<RelocatePair>,
    first: bool,
    index: int,
    i: int,
)
    requires
        is_plan_of(plan, segment, pairs, first, index),
        0 <= i < region_steps(plan).len(),
    ensures
        region_steps(plan)[i] is MapPages <==> i == 0,
        region_steps(plan)[i] matches RegionAction::MapPages { flags } ==> flags.write && !flags.user,
        region_steps(plan)[i] matches RegionAction::Protect { flags } ==> i == region_steps(
            plan,
        ).len() - 1 && flags == plan.flags,
        !first ==> region_steps(plan).last() == (RegionAction::Protect { flags: plan.flags })
            && plan.flags.user,
        first ==> !plan.flags.user,
{
}

/// Code is in the same pages for every address space, and never written there again; data
/// is in pages of its own, with the same content, relocated, as in the kernel.
pub proof fn law_code_is_shared_and_data_is_not(
    kernel: RegionPlan,
    user: RegionPlan,
    segment: ElfSegment,
    pairs: Seq<RelocatePair>,
    index: int,
)
    requires
        0 <= index <= usize::MAX,
        is_plan_of(kernel, segment, pairs, true, index),
        is_plan_of(user, segment, pairs, false, index),
    ensures
        kernel.pages == PageSource::AllocateAndKeep,
        segment.flags.execute ==> user.pages == (PageSource::Shared { region: index as usize })
            && user.content is Unchanged,
        !segment.flags.execute ==> user.pages == PageSource::Allocate && user.content is Bytes
            && kernel.content is Bytes && user.content->bytes@ == kernel.content->bytes@,
{
}

} // verus!
