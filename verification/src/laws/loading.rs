//! What is loaded, and where it is mapped.

use vstd::arithmetic::div_mod::lemma_div_denominator;
use vstd::arithmetic::power::{lemma_pow0, lemma_pow1, lemma_pow_adds, lemma_pow_positive, pow};
use vstd::prelude::*;

use crate::vdso::loader::{
    is_plan_of, kept_segments, le_bytes, loaded, map_so, region_actions, relocated, relocated_by,
    vdso_size, vvar_size, ElfSegment, PageSource, RegionAction, RegionContent, RegionPlan,
    RelocatePair,
};

verus! {

/// How many of the first `n` segments have a size.
pub open spec fn sized_before(segments: Seq<ElfSegment>, n: nat) -> nat
    decreases n,
{
    if n == 0 {
        0
    } else if segments[n - 1].size == 0 {
        sized_before(segments, (n - 1) as nat)
    } else {
        sized_before(segments, (n - 1) as nat) + 1
    }
}

proof fn lemma_kept_segment(segments: Seq<ElfSegment>, i: nat, n: nat)
    requires
        i < n <= segments.len(),
        segments[i as int].size != 0,
    ensures
        kept_segments(segments, n).len() == sized_before(segments, n),
        sized_before(segments, i) < sized_before(segments, n),
        kept_segments(segments, n)[sized_before(segments, i) as int] == segments[i as int],
    decreases n,
{
    lemma_kept_len(segments, (n - 1) as nat);
    if i + 1 < n {
        lemma_kept_segment(segments, i, (n - 1) as nat);
    }
}

proof fn lemma_kept_len(segments: Seq<ElfSegment>, n: nat)
    requires
        n <= segments.len(),
    ensures
        kept_segments(segments, n).len() == sized_before(segments, n),
    decreases n,
{
    if n > 0 {
        lemma_kept_len(segments, (n - 1) as nat);
    }
}

/// The region of each segment that has a size is the one after those of the shared data and of
/// the segments before it. It begins where the segment does, takes the fewest whole pages that
/// hold it, and may be used as the segment may, by user space in every address space but the
/// first. In the first every region gets pages of its own, which are kept; later the pages of
/// code are shared, and all others are new.
pub proof fn law_segments_have_their_regions(
    vbase: usize,
    vvar: usize,
    segments: Vec<ElfSegment>,
    pairs: Vec<RelocatePair>,
    first: bool,
    mapped: (Vec<RegionPlan>, usize),
    i: nat,
)
    requires
        call_ensures(map_so, (vbase, vvar, &segments, &pairs, first), mapped),
        i < segments@.len(),
        segments@[i as int].size != 0,
    ensures
        ({
            let segment = segments@[i as int];
            let k = 1 + sized_before(segments@, i);
            let region = mapped.0@[k as int];
            &&& mapped.0@.len() == 1 + sized_before(segments@, segments@.len())
            &&& k < mapped.0@.len()
            &&& region.vaddr == segment.vaddr
            &&& region.size % 4096 == 0
            &&& segment.size <= region.size < segment.size + 4096
            &&& region.flags.read == segment.flags.read
            &&& region.flags.write == segment.flags.write
            &&& region.flags.execute == segment.flags.execute
            &&& region.flags.user == !first
            &&& region.map_flags.read == segment.flags.read
            &&& region.map_flags.write
            &&& region.map_flags.execute == segment.flags.execute
            &&& !region.map_flags.user
            &&& first ==> region.pages is AllocateAndKeep
            &&& !first && segment.flags.execute ==> region.pages == PageSource::Shared {
                region: k as usize,
            }
            &&& !first && !segment.flags.execute ==> region.pages is Allocate
            &&& region.content is Unchanged <==> !first && segment.flags.execute
            &&& region.content !is SharedData
        }),
{
    lemma_kept_segment(segments@, i, segments@.len());
    let k = 1 + sized_before(segments@, i);
    assert(is_plan_of(mapped.0@[k as int], segments@[i as int], pairs@, first, k as int));
}

/// The shared data comes first, at the beginning of the area, and the object right after it.
/// It is written once, and shared from then on.
pub proof fn law_shared_data_comes_first(
    vbase: usize,
    vvar: usize,
    segments: Vec<ElfSegment>,
    pairs: Vec<RelocatePair>,
    first: bool,
    mapped: (Vec<RegionPlan>, usize),
)
    requires
        call_ensures(map_so, (vbase, vvar, &segments, &pairs, first), mapped),
    ensures
        mapped.1 == vbase + vvar,
        mapped.0@.len() >= 1,
        mapped.0@[0].vaddr == vbase,
        mapped.0@[0].size == vvar,
        mapped.0@[0].flags.read && mapped.0@[0].flags.write && !mapped.0@[0].flags.execute,
        mapped.0@[0].flags.user == !first,
        mapped.0@[0].map_flags == mapped.0@[0].flags,
        first <==> mapped.0@[0].pages is AllocateAndKeep,
        !first <==> mapped.0@[0].pages == (PageSource::Shared { region: 0 }),
        first <==> mapped.0@[0].content is SharedData,
        !first <==> mapped.0@[0].content is Unchanged,
{
}

proof fn lemma_le_byte(value: int, n: nat, b: nat)
    requires
        b < n,
        value >= 0,
    ensures
        le_bytes(value, n).len() == n,
        le_bytes(value, n)[b as int] == (value / pow(256, b)) % 256,
    decreases n,
{
    lemma_pow0(256);
    reveal_with_fuel(le_bytes, 2);
    if n > 1 {
        if b > 0 {
            lemma_le_byte(value / 256, (n - 1) as nat, (b - 1) as nat);
            lemma_pow_positive(256, (b - 1) as nat);
            lemma_pow1(256);
            lemma_pow_adds(256, 1, (b - 1) as nat);
            lemma_div_denominator(
                value,
                256,
                pow(256, (b - 1) as nat),
            );
        } else {
            lemma_le_byte(value / 256, (n - 1) as nat, 0);
        }
    }
}

/// Whether a relocation is written to a region, and to its byte at the address `at`.
pub open spec fn writes_byte(pair: RelocatePair, region: RegionPlan, at: int) -> bool {
    region.vaddr <= pair.dst < region.vaddr + region.size && pair.dst <= at < pair.dst + pair.count
}

proof fn lemma_relocated_by(
    bytes: Seq<u8>,
    region: RegionPlan,
    pairs: Seq<RelocatePair>,
    n: nat,
)
    requires
        n <= pairs.len(),
        bytes.len() == region.size,
    ensures
        relocated_by(bytes, region.vaddr as int, pairs, n).len() == bytes.len(),
    decreases n,
{
    if n > 0 {
        lemma_relocated_by(bytes, region, pairs, (n - 1) as nat);
    }
}

proof fn lemma_untouched_byte(
    bytes: Seq<u8>,
    region: RegionPlan,
    pairs: Seq<RelocatePair>,
    from: nat,
    n: nat,
    i: int,
)
    requires
        from <= n <= pairs.len(),
        bytes.len() == region.size,
        0 <= i < region.size,
        forall|j: int|
            from <= j < n ==> !writes_byte(#[trigger] pairs[j], region, region.vaddr + i),
    ensures
        relocated_by(bytes, region.vaddr as int, pairs, n)[i] == relocated_by(
            bytes,
            region.vaddr as int,
            pairs,
            from,
        )[i],
    decreases n,
{
    if from < n {
        lemma_untouched_byte(bytes, region, pairs, from, (n - 1) as nat, i);
        lemma_relocated_by(bytes, region, pairs, (n - 1) as nat);
        assert(!writes_byte(pairs[n - 1], region, region.vaddr + i));
    }
}

/// Every relocation in a segment that is loaded is done: each of its bytes that no later one
/// writes holds the byte of the address that belongs there, the lowest first.
pub proof fn law_every_relocation_is_done(
    vbase: usize,
    vvar: usize,
    segments: Vec<ElfSegment>,
    pairs: Vec<RelocatePair>,
    first: bool,
    mapped: (Vec<RegionPlan>, usize),
    i: nat,
    j: nat,
    b: nat,
)
    requires
        call_ensures(map_so, (vbase, vvar, &segments, &pairs, first), mapped),
        i < segments@.len(),
        segments@[i as int].size != 0,
        first || !segments@[i as int].flags.execute,
        j < pairs@.len(),
        b < pairs@[j as int].count,
        ({
            let region = mapped.0@[1 + sized_before(segments@, i) as int];
            let pair = pairs@[j as int];
            &&& pair.count <= 8
            &&& region.vaddr <= pair.dst
            &&& pair.dst + pair.count <= region.vaddr + region.size
            &&& forall|l: int|
                j < l < pairs@.len() ==> !writes_byte(#[trigger] pairs@[l], region, pair.dst + b)
        }),
    ensures
        ({
            let region = mapped.0@[1 + sized_before(segments@, i) as int];
            let pair = pairs@[j as int];
            &&& region.content matches RegionContent::Bytes { bytes, .. }
            &&& bytes@.len() == region.size
            &&& pair.dst - region.vaddr + b < bytes@.len()
            &&& bytes@[pair.dst - region.vaddr + b] == (pair.src as int / pow(256, b)) % 256
        }),
{
    lemma_kept_segment(segments@, i, segments@.len());
    let k = 1 + sized_before(segments@, i);
    let segment = segments@[i as int];
    let region = mapped.0@[k as int];
    assert(is_plan_of(region, segment, pairs@, first, k as int));
    let start = loaded(segment, region.size as int);
    let pair = pairs@[j as int];
    let at = pair.dst - region.vaddr + b;
    lemma_relocated_by(start, region, pairs@, pairs@.len());
    lemma_relocated_by(start, region, pairs@, j);
    lemma_untouched_byte(start, region, pairs@, j + 1, pairs@.len(), at);
    assert(relocated_by(start, region.vaddr as int, pairs@, j + 1) == relocated(
        relocated_by(start, region.vaddr as int, pairs@, j),
        region.vaddr as int,
        pair,
    ));
    lemma_le_byte(pair.src as int, 8, b);
}

/// Of a segment that is loaded, every byte that no relocation writes is what the file has of
/// it, or 0 behind that.
pub proof fn law_other_bytes_are_the_files(
    vbase: usize,
    vvar: usize,
    segments: Vec<ElfSegment>,
    pairs: Vec<RelocatePair>,
    first: bool,
    mapped: (Vec<RegionPlan>, usize),
    i: nat,
    at: nat,
)
    requires
        call_ensures(map_so, (vbase, vvar, &segments, &pairs, first), mapped),
        i < segments@.len(),
        segments@[i as int].size != 0,
        first || !segments@[i as int].flags.execute,
        ({
            let region = mapped.0@[1 + sized_before(segments@, i) as int];
            &&& at < region.size
            &&& forall|l: int|
                0 <= l < pairs@.len() ==> !writes_byte(
                    #[trigger] pairs@[l],
                    region,
                    region.vaddr + at,
                )
        }),
    ensures
        ({
            let region = mapped.0@[1 + sized_before(segments@, i) as int];
            &&& region.content matches RegionContent::Bytes { bytes, direct }
            &&& direct == segments@[i as int].data is None
            &&& bytes@.len() == region.size
            &&& bytes@[at as int] == match segments@[i as int].data {
                Some(data) => if at < data@.len() {
                    data@[at as int]
                } else {
                    0
                },
                None => 0,
            }
        }),
{
    lemma_kept_segment(segments@, i, segments@.len());
    let k = 1 + sized_before(segments@, i);
    let segment = segments@[i as int];
    let region = mapped.0@[k as int];
    assert(is_plan_of(region, segment, pairs@, first, k as int));
    let start = loaded(segment, region.size as int);
    lemma_relocated_by(start, region, pairs@, pairs@.len());
    lemma_untouched_byte(start, region, pairs@, 0, pairs@.len(), at as int);
}

/// A region is mapped, then written if it has content, and gets its final flags last, if they
/// are others.
pub proof fn law_regions_are_done_in_order(plan: RegionPlan, actions: Vec<RegionAction>)
    requires
        call_ensures(region_actions, (&plan,), actions),
    ensures
        actions@.len() >= 1,
        actions@[0] == (RegionAction::MapPages { flags: plan.map_flags }),
        plan.content !is Unchanged ==> actions@.len() >= 2 && actions@[1] is Write,
        plan.flags != plan.map_flags ==> actions@.last() == (RegionAction::Protect {
            flags: plan.flags,
        }),
        actions@.len() == 1 + (if plan.content is Unchanged {
            0int
        } else {
            1
        }) + (if plan.flags == plan.map_flags {
            0int
        } else {
            1
        }),
{
}

/// The area of the object holds the file and a page more, in whole pages, and no page too
/// many; that of the shared data holds the data.
pub proof fn law_areas_hold_what_they_are_for(len: usize, vdso: usize, vvar: usize)
    requires
        call_ensures(vdso_size, (len,), vdso),
        call_ensures(vvar_size, (len,), vvar),
    ensures
        vdso % 4096 == 0,
        len + 4096 <= vdso < len + 2 * 4096,
        vvar % 4096 == 0,
        len <= vvar < len + 4096,
{
}

} // verus!
