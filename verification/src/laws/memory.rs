//! Where things are in memory: images, areas, stacks, and what address spaces share.

use std::collections::BTreeMap;

use vstd::prelude::*;

use crate::laws::tasks::same_state;
use crate::sched::context::{
    activate_user_aspace, get_process_vdso_base, init_raw_run_task_offset, page_table_root_from_raw,
    set_process_vdso_base, VschedContextImpl, VschedVSpaceImpl,
};
use crate::sched::registry::SchedTasks;
use crate::sched::smp::VschedSmpImpl;
use crate::sched::stack::{alloc_stack, stack_allocation_layout, StackLayout, VschedStackImpl};
use crate::sched::star::{
    find_in_area, find_in_areas, find_user_vaddr_for_phys, get_handler,
    register_trap_handler_factory, switch_vspace, CoroutinePolled, StarTask, StarryUserData,
    TrapHandlerFactory,
};
use crate::sched::task::AxTask;
use crate::sched::trapframe::UserTrapFrame;
use crate::sched::userdata::{
    last_page_of, maps_in_a_row, page_of, translate_user_range, AddrSpaceView, VschedUserDataImpl,
};
use crate::state::{AxTaskState, TaskState};
use crate::vdso::elf::{
    check_elf_headers, check_load_span, checked_vdso_runtime_size, elf_headers_fit, header_count,
    header_entry, headers_at, le_number, load_end, load_span, load_start, program_header,
    program_headers, vdso_runtime_size,
};
use crate::vdso::placement::{
    get_kernel_vaddr, place_vdso, ppage_alloc, starry_vsched_init, starry_vvar_data, valloc,
    vdso_init, VdsoPlacement,
};
use crate::vdso::starry::StarryVvar;

verus! {

proof fn lemma_load_end(headers: Seq<(bool, u64, u64)>, n: nat)
    requires
        n <= headers.len(),
    ensures
        load_end(headers, n) % 4096 == 0,
        0 <= load_end(headers, n),
        forall|i: int|
            0 <= i < n && (#[trigger] headers[i]).0 ==> headers[i].1 + headers[i].2 <= load_end(
                headers,
                n,
            ),
        load_end(headers, n) > 0 ==> exists|i: int|
            0 <= i < n && (#[trigger] headers[i]).0 && load_end(headers, n) < headers[i].1
                + headers[i].2 + 4096,
    decreases n,
{
    if n > 0 {
        let m = (n - 1) as nat;
        lemma_load_end(headers, m);
        if load_end(headers, m) > 0 && load_end(headers, n) == load_end(headers, m) {
            let i = choose|i: int|
                0 <= i < m && (#[trigger] headers[i]).0 && load_end(headers, m) < headers[i].1
                    + headers[i].2 + 4096;
            assert(headers[i].0);
        } else {
            assert(headers[n - 1].0 || !headers[n - 1].0);
        }
    }
}

proof fn lemma_load_start(headers: Seq<(bool, u64, u64)>, n: nat)
    requires
        n <= headers.len(),
    ensures
        load_start(headers, n) matches Some(s) ==> s >= 0,
        load_start(headers, n) == Some(0int) <==> exists|i: int|
            0 <= i < n && (#[trigger] headers[i]).0 && headers[i].1 < 4096,
    decreases n,
{
    if n > 0 {
        let m = (n - 1) as nat;
        lemma_load_start(headers, m);
        if load_start(headers, m) == Some(0int) {
            let i = choose|i: int|
                0 <= i < m && (#[trigger] headers[i]).0 && headers[i].1 < 4096;
            assert(headers[i].0);
        }
        if headers[n - 1].0 && headers[n - 1].1 < 4096 {
            assert(headers[n - 1].0);
        }
    }
}

/// The memory of an image is the fewest whole pages from 0 on that hold every segment that is
/// loaded.
pub proof fn law_image_takes_the_pages_of_its_segments(
    headers: Vec<(bool, u64, u64)>,
    size: usize,
    i: int,
)
    requires
        call_ensures(load_span, (&headers,), size),
        0 <= i < headers@.len(),
    ensures
        size % 4096 == 0,
        headers@[i].0 ==> headers@[i].1 + headers@[i].2 <= size,
        size > 0 ==> exists|j: int|
            0 <= j < headers@.len() && (#[trigger] headers@[j]).0 && size < headers@[j].1
                + headers@[j].2 + 4096,
{
    lemma_load_end(headers@, headers@.len());
}

/// An image can be loaded exactly if what it loads begins in the first page and ends at an
/// address.
pub proof fn law_loadable_image_begins_at_zero(headers: Vec<(bool, u64, u64)>, ok: bool)
    requires
        call_ensures(check_load_span, (&headers,), ok),
    ensures
        ok <==> {
            &&& exists|i: int|
                0 <= i < headers@.len() && (#[trigger] headers@[i]).0 && headers@[i].1 < 4096
            &&& forall|i: int|
                0 <= i < headers@.len() && (#[trigger] headers@[i]).0 ==> headers@[i].1
                    + headers@[i].2 + 4095 <= usize::MAX
        },
{
    lemma_load_start(headers@, headers@.len());
}

/// The number that bytes stand for, the lowest first.
pub open spec fn number_at(image: Seq<u8>, at: int, n: nat) -> int
    decreases n,
{
    if n == 0 {
        0
    } else {
        number_at(image, at + 1, (n - 1) as nat) * 256 + image[at]
    }
}

proof fn lemma_number(image: Seq<u8>, at: int, n: nat)
    ensures
        le_number(image, at, n) == number_at(image, at, n),
        0 <= number_at(image, at, n),
        n == 2 ==> number_at(image, at, n) < 0x10000,
        n == 4 ==> number_at(image, at, n) < 0x100000000,
        n == 8 ==> number_at(image, at, n) < 0x10000000000000000,
    decreases n,
{
    reveal_with_fuel(number_at, 9);
    reveal_with_fuel(le_number, 9);
    if n > 0 {
        lemma_number(image, at + 1, (n - 1) as nat);
    }
}

/// The size of a 64-bit image is that of its segments: it is a whole number of pages, and each
/// program header whose type is 1 has its segment within it. An image that has no ELF header
/// has no size.
pub proof fn law_image_size_is_that_of_its_segments(image: &[u8], size: Option<usize>, i: int)
    requires
        call_ensures(checked_vdso_runtime_size, (image,), size),
    ensures
        size matches Some(s) ==> {
            &&& image@.len() >= 52
            &&& image@[0] == 0x7f && image@[1] == 0x45 && image@[2] == 0x4c && image@[3] == 0x46
            &&& image@[4] == 1 || image@[4] == 2
            &&& s % 4096 == 0
            &&& image@[4] == 2 ==> {
                let first = number_at(image@, 32, 8);
                let apart = number_at(image@, 54, 2);
                let at = first + i * apart;
                &&& first != 0 && apart != 0
                &&& 0 <= i < number_at(image@, 56, 2) && number_at(image@, at, 4) == 1
                    ==> number_at(image@, at + 16, 8) + number_at(image@, at + 40, 8) <= s
            }
            &&& image@[4] == 1 ==> {
                let first = number_at(image@, 28, 4);
                let apart = number_at(image@, 42, 2);
                let at = first + i * apart;
                &&& first != 0 && apart != 0
                &&& 0 <= i < number_at(image@, 44, 2) && number_at(image@, at, 4) == 1
                    ==> number_at(image@, at + 8, 4) + number_at(image@, at + 20, 4) <= s
            }
        },
{
    if size is Some {
        let headers = program_headers(image@).unwrap();
        lemma_load_end(headers, headers.len());
        lemma_load_start(headers, headers.len());
        lemma_number(image@, 32, 8);
        lemma_number(image@, 28, 4);
        lemma_number(image@, 54, 2);
        lemma_number(image@, 42, 2);
        lemma_number(image@, 56, 2);
        lemma_number(image@, 44, 2);
        let at = headers_at(image@) + i * header_entry(image@);
        lemma_number(image@, at, 4);
        lemma_number(image@, at + 16, 8);
        lemma_number(image@, at + 40, 8);
        lemma_number(image@, at + 8, 4);
        lemma_number(image@, at + 20, 4);
        if 0 <= i < header_count(image@) {
            assert(headers[i] == program_header(image@, at));
        }
        let k = choose|k: int| 0 <= k < headers.len() && (#[trigger] headers[k]).0;
        if load_end(headers, headers.len()) > 0 {
            let j = choose|j: int|
                0 <= j < headers.len() && (#[trigger] headers[j]).0 && load_end(
                    headers,
                    headers.len(),
                ) < headers[j].1 + headers[j].2 + 4096;
            assert(headers[j].1 + headers[j].2 + 4095 <= usize::MAX);
        }
    }
}

/// A shared object is where the kernel has it, less the distance, and its data right below it.
pub proof fn law_object_and_data_are_placed(
    vdso_start: usize,
    vdso_size: usize,
    vvar_size: usize,
    offset: usize,
    placement: VdsoPlacement,
)
    requires
        offset + vvar_size <= vdso_start,
        call_ensures(place_vdso, (vdso_start, vdso_size, vvar_size, offset), placement),
    ensures
        placement.vdso_start_pa + offset == vdso_start,
        placement.vvar_start_pa + vvar_size == placement.vdso_start_pa,
        placement.vdso_size == vdso_size,
        placement.vvar_size == vvar_size,
{
}

/// The objects are placed with the sizes of their images, if these can be loaded, and the one
/// with the task table has its shared data marked, and no task changed.
pub proof fn law_loaded_objects_are_placed(
    image: &[u8],
    vdso_start: usize,
    vvar_size: usize,
    offset: usize,
    vvar: &mut StarryVvar,
    size: Option<usize>,
    placement: Option<VdsoPlacement>,
    starry: Option<VdsoPlacement>,
)
    requires
        offset + vvar_size <= vdso_start,
        call_ensures(checked_vdso_runtime_size, (image,), size),
        call_ensures(vdso_init, (image, vdso_start, vvar_size, offset), placement),
        call_ensures(starry_vsched_init, (image, vdso_start, vvar_size, offset, vvar), starry),
    ensures
        placement is Some <==> size is Some,
        placement matches Some(p) ==> {
            &&& Some(p.vdso_size) == size
            &&& p.vdso_start_pa + offset == vdso_start
            &&& p.vvar_start_pa + vvar_size == p.vdso_start_pa
            &&& p.vvar_size == vvar_size
        },
        starry == placement,
        final(vvar).stage_a_value == 0x5354_4152_5259_5641u64 as usize,
        final(vvar).task_table == old(vvar).task_table,
{
}

/// No less of an address space is looked for than is asked for, nor than the image takes; pages
/// are counted by 4096 bytes; and what the kernel has is found page by page.
pub proof fn law_areas_are_large_enough(
    size: usize,
    runtime: usize,
    span: usize,
    pages: usize,
    pa: usize,
    offset: usize,
    data: usize,
)
    requires
        call_ensures(valloc, (size, runtime), span),
        call_ensures(ppage_alloc, (size,), pages),
        call_ensures(starry_vvar_data, (pa, offset), data),
    ensures
        span >= size && span >= runtime,
        span == size || span == runtime,
        pages * 4096 <= size < pages * 4096 + 4096,
        data == pa + offset,
{
}

/// Two addresses of one page are as far apart for the kernel as they are for user space.
pub proof fn law_kernel_sees_whole_pages(
    table: BTreeMap<usize, usize>,
    offset: usize,
    a: usize,
    b: usize,
    kernel_a: usize,
    kernel_b: usize,
)
    requires
        a - a % 4096 == b - b % 4096,
        call_ensures(get_kernel_vaddr, (&table, a, offset), kernel_a),
        call_ensures(get_kernel_vaddr, (&table, b, offset), kernel_b),
    ensures
        kernel_a - a == kernel_b - b,
        kernel_a == table@[(a - a % 4096) as usize] + offset + a % 4096,
{
}

/// The shared counter is what it was set to, and counts up; the tasks stay.
pub proof fn law_shared_counter_counts(
    made: StarryVvar,
    set: &mut StarryVvar,
    added: &mut StarryVvar,
    value: usize,
    read: usize,
    before: usize,
)
    requires
        call_ensures(StarryVvar::new, (), made),
        call_ensures(StarryVvar::stage_a_set_shared, (set, value), ()),
        call_ensures(StarryVvar::stage_a_get_shared, (&*final(set),), read),
        call_ensures(StarryVvar::stage_a_fetch_add, (added, value), before),
    ensures
        made.stage_a_value == 0,
        read == value,
        final(set).task_table == old(set).task_table,
        before == old(added).stage_a_value,
        old(added).stage_a_value + value <= usize::MAX ==> final(added).stage_a_value == old(added).stage_a_value + value,
        final(added).task_table == old(added).task_table,
{
}

/// A range is translated exactly if all its pages are mapped, to physical pages that follow
/// each other, and then each of its bytes is where the page table has it.
pub proof fn law_translation_follows_the_page_table(
    pages: BTreeMap<usize, usize>,
    offset: usize,
    user_va: usize,
    len: usize,
    addr: Option<usize>,
    i: nat,
)
    requires
        call_ensures(translate_user_range, (&pages, offset, user_va, len), addr),
        i < len,
    ensures
        addr matches Some(a) ==> {
            let at = user_va + i;
            let page = (at - at % 4096) as usize;
            &&& at <= usize::MAX
            &&& pages@.contains_key(page)
            &&& a + i == pages@[page] + offset + at % 4096
        },
        user_va + i <= usize::MAX && !pages@.contains_key(
            ((user_va + i) - (user_va + i) % 4096) as usize,
        ) ==> addr is None,
        user_va + len > usize::MAX ==> addr is None,
        (user_va % 4096 + len <= 4096 && user_va + len + 4096 <= usize::MAX && pages@.contains_key(
            (user_va - user_va % 4096) as usize,
        )) ==> addr is Some,
{
    let first = page_of(user_va as int);
    let last = last_page_of(user_va as int, len as int);
    let page = page_of(user_va + i);
    if user_va + len <= usize::MAX {
        assert(page % 4096 == 0 && first % 4096 == 0);
        assert(first <= page <= last);
        if maps_in_a_row(pages@, first, last) {
            assert(pages@.contains_key(page as usize));
        }
        if user_va % 4096 + len <= 4096 {
            assert(last == first);
            if pages@.contains_key(first as usize) {
                assert forall|p: int|
                    #![trigger pages@.contains_key(p as usize)]
                    first <= p <= last && p % 4096 == 0 implies pages@.contains_key(p as usize)
                    && pages@[p as usize] == pages@[first as usize] + (p - first) by {
                    assert(p == first);
                }
                assert(maps_in_a_row(pages@, first, last));
            }
        }
    }
}

/// What the kernel shares with user space is where it is for both; of the scheduler's image,
/// each process has its own at the same distance from where it has the image, and the kernel
/// sees it by the process's page table, if it asks for another address space; and all else is
/// nowhere.
pub proof fn law_scheduler_data_is_found(
    data: VschedUserDataImpl,
    pos: usize,
    len: usize,
    vspace: Option<usize>,
    aspace: AddrSpaceView,
    current: usize,
    addr: usize,
)
    requires
        call_ensures(
            VschedUserDataImpl::get_user_data,
            (&data, pos, len, vspace, &aspace, current),
            addr,
        ),
        pos + len <= usize::MAX,
    ensures
        ({
            let shared = data.vvar_start <= pos && pos + len <= data.vvar_start + data.vvar_size;
            let image = data.vdso_start <= pos && pos + len <= data.vdso_start + data.vdso_size;
            let other = vspace matches Some(ptr) && ptr >= 0xffffffc000000000;
            &&& shared ==> addr == pos
            &&& !shared && !image ==> addr == 0
            &&& !shared && image && !other ==> addr == (if current == 0 {
                0
            } else {
                current + (pos - data.vdso_start)
            })
            &&& !shared && image && other && aspace.vdso_base == 0 ==> addr == 0
            &&& !shared && image && other && aspace.vdso_base != 0 && addr != 0 ==> {
                let user = aspace.vdso_base + (pos - data.vdso_start);
                &&& aspace.pages@.contains_key((user - user % 4096) as usize)
                &&& addr == aspace.pages@[(user - user % 4096) as usize] + data.phys_virt_offset
                    + user % 4096
            }
        }),
{
}

proof fn lemma_found_in_area(pages: Map<usize, usize>, vaddr: int, end: int, target: usize, at: int)
    requires
        vaddr <= at < end,
        (at - vaddr) % 4096 == 0,
        pages.contains_key(at as usize),
        pages[at as usize] == target,
    ensures
        find_in_area(pages, vaddr, end, target) is Some,
    decreases at - vaddr,
{
    if vaddr < at && !(pages.contains_key(vaddr as usize) && pages[vaddr as usize] == target) {
        lemma_found_in_area(pages, vaddr + 4096, end, target, at);
    }
}

proof fn lemma_found_in_areas(
    areas: Seq<(usize, usize)>,
    pages: Map<usize, usize>,
    from: int,
    i: int,
    target: usize,
    at: int,
)
    requires
        0 <= from <= i < areas.len(),
        areas[i].0 <= at < areas[i].1,
        (at - areas[i].0) % 4096 == 0,
        pages.contains_key(at as usize),
        pages[at as usize] == target,
    ensures
        find_in_areas(areas, pages, from, target) is Some,
    decreases i - from,
{
    if from < i {
        lemma_found_in_areas(areas, pages, from + 1, i, target, at);
    } else {
        lemma_found_in_area(pages, areas[i].0 as int, areas[i].1 as int, target, at);
    }
}

/// A physical page is found in the areas of an address space exactly if one of their pages is
/// mapped to it, and what is found is.
pub proof fn law_physical_page_is_found(
    areas: Vec<(usize, usize)>,
    pages: BTreeMap<usize, usize>,
    target: usize,
    vaddr: Option<usize>,
    i: int,
    at: usize,
)
    requires
        call_ensures(find_user_vaddr_for_phys, (&areas, &pages, target), vaddr),
        0 <= i < areas@.len(),
        areas@[i].0 <= at < areas@[i].1,
        (at - areas@[i].0) % 4096 == 0,
    ensures
        pages@.contains_key(at) && pages@[at] == target ==> vaddr is Some,
        vaddr matches Some(v) ==> pages@.contains_key(v) && pages@[v] == target,
{
    crate::sched::star::law_found_page_is_the_page(areas@, pages@, 0, target);
    if pages@.contains_key(at) && pages@[at] == target {
        lemma_found_in_areas(areas@, pages@, 0, i, target, at as int);
    }
}

/// Shared data is found in the current thread's address space at the same place of its page,
/// and nowhere without a thread or outside of the data.
pub proof fn law_shared_data_is_found_by_its_page(
    data: StarryUserData,
    pos: usize,
    len: usize,
    areas: Vec<(usize, usize)>,
    pages: BTreeMap<usize, usize>,
    addr: usize,
    none: usize,
)
    requires
        call_ensures(StarryUserData::get_user_data, (&data, pos, len, Some((&areas, &pages))), addr),
        call_ensures(
            StarryUserData::get_user_data,
            (&data, pos, len, None::<(&Vec<(usize, usize)>, &BTreeMap<usize, usize>)>),
            none,
        ),
    ensures
        none == 0,
        ({
            let start = data.vvar_start_pa + data.phys_virt_offset;
            let offset = pos - start;
            &&& pos < start || pos + len > start + data.vvar_size ==> addr == 0
            &&& addr != 0 ==> {
                let page = addr - offset % 4096;
                let pa = data.vvar_start_pa + offset;
                &&& pages@.contains_key(page as usize)
                &&& pages@[page as usize] == pa - pa % 4096
            }
        }),
{
    let offset = pos - data.kernel_start();
    let page = (data.vvar_start_pa + offset) - (data.vvar_start_pa + offset) % 4096;
    crate::sched::star::law_found_page_is_the_page(areas@, pages@, 0, page as usize);
}

/// A page table is loaded exactly if there is one and it is not in use.
pub proof fn law_page_table_is_loaded_if_it_changes(
    vspace: usize,
    root: usize,
    current: usize,
    loaded: Option<usize>,
    switched: Option<usize>,
    found: Option<usize>,
    load: bool,
)
    requires
        call_ensures(VschedVSpaceImpl::into_vspace, (vspace, root, current), loaded),
        call_ensures(switch_vspace, (vspace, root, current), switched),
        call_ensures(page_table_root_from_raw, (vspace, root), found),
        call_ensures(activate_user_aspace, (root, current), load),
    ensures
        loaded is Some <==> vspace != 0 && root != 0 && root != current,
        loaded matches Some(r) ==> r == root,
        switched == loaded,
        found is Some <==> vspace != 0 && root != 0,
        found matches Some(r) ==> r == root,
        load <==> root != current,
{
}

/// A coroutine is entered in user space at the function that runs a task, as far into the
/// image of the task's address space as the kernel has it in its own.
pub proof fn law_coroutine_is_entered_in_its_image(
    context: &mut VschedContextImpl,
    based: &mut VschedContextImpl,
    kernel_addr: usize,
    kernel_base: usize,
    tasks: SchedTasks,
    current: usize,
    entry: usize,
    base: usize,
    read: usize,
)
    requires
        kernel_base <= kernel_addr,
        call_ensures(init_raw_run_task_offset, (context, kernel_addr, kernel_base), ()),
        call_ensures(VschedContextImpl::into_user, (&*final(context), &tasks, current), entry),
        call_ensures(set_process_vdso_base, (based, base), ()),
        call_ensures(get_process_vdso_base, (&*final(based),), read),
    ensures
        tasks.resolve(current) matches Some(addr) && entry - tasks.objects@[addr].user_vdso_base
            == kernel_addr - kernel_base,
        read == base,
        final(based).raw_run_task_offset == old(based).raw_run_task_offset,
        final(context).process_vdso_base == old(context).process_vdso_base,
{
}

/// A thread is entered in user space with what its own frame holds.
pub proof fn law_thread_is_entered_from_its_frame(
    tasks: SchedTasks,
    task: usize,
    frame: UserTrapFrame,
)
    requires
        call_ensures(VschedContextImpl::into_user_context, (&tasks, task), frame),
    ensures
        tasks.resolve(task) matches Some(addr) && frame
            == tasks.frames@[tasks.objects@[addr].trap_frame],
{
}

/// A stack lies behind its header, at the end of its allocation, and has all its bytes.
pub proof fn law_stack_has_all_its_bytes(
    ptr: usize,
    size: usize,
    layout: StackLayout,
    header: VschedStackImpl,
    base: usize,
)
    requires
        size + 64 <= isize::MAX,
        ptr + size + 64 <= usize::MAX,
        call_ensures(stack_allocation_layout, (size,), layout),
        call_ensures(alloc_stack, (ptr, size), header),
        call_ensures(VschedStackImpl::base, (&header,), base),
    ensures
        layout.size == size + 16,
        layout.align == 16,
        layout.stack_offset == 16,
        base == ptr + layout.size,
        base - size == ptr + layout.stack_offset,
        header.magic == 0xdeadbeefcafebabe,
{
}

/// A CPU is named by its own number, and the one that is interrupted is the one that was meant.
pub proof fn law_cpus_are_named_by_number(
    smp: VschedSmpImpl,
    this: usize,
    target: usize,
    id: usize,
    sent: usize,
)
    requires
        call_ensures(VschedSmpImpl::cpu_id, (&smp, this), id),
        call_ensures(VschedSmpImpl::send_ipi, (&smp, target, this), sent),
    ensures
        id == this,
        sent == target,
{
}

/// A wrapped task is its kernel task, with a stack below the top that is given, and a coroutine
/// exactly if it has one.
pub proof fn law_wrapped_task_is_its_kernel_task(
    task: AxTask,
    top: Option<usize>,
    size: usize,
    priority: isize,
    pid: usize,
    coroutine: Option<usize>,
    star: StarTask,
)
    requires
        call_ensures(StarTask::new, (task, top, size, priority, pid, coroutine), star),
    ensures
        star.task == task,
        star.priority == priority,
        star.pid == pid,
        star.coroutine == coroutine,
        star.is_coroutine <==> coroutine is Some,
        star.return_value == 0,
        top is None ==> star.thread_stack_base == 0,
        top matches Some(t) ==> t >= size ==> star.thread_stack_base == t - size,
{
}

/// A wrapped task is in the state that it is set to, ready once its thread's context is kept,
/// and blocked while its trap is handled.
pub proof fn law_wrapped_task_is_in_its_state(
    star: &mut StarTask,
    thread: &mut StarTask,
    trapped: &mut StarTask,
    state: TaskState,
    previous: TaskState,
    seen: TaskState,
)
    requires
        call_ensures(StarTask::set_state, (star, state), previous),
        call_ensures(StarTask::state, (&*final(star),), seen),
        call_ensures(StarTask::save_thread_context, (thread,), ()),
        call_ensures(StarTask::save_trap_context, (trapped,), ()),
    ensures
        same_state(previous, old(star).task.state),
        seen == state,
        final(star).task.id == old(star).task.id,
        final(thread).task.state == AxTaskState::Ready,
        final(trapped).task.state == AxTaskState::Blocked,
        final(trapped).task.id == old(trapped).task.id,
{
}

/// A poll of a wrapped coroutine gives what the coroutine gave, and keeps its value; a thread
/// counts as finished.
pub proof fn law_wrapped_coroutine_keeps_its_value(
    star: &mut StarTask,
    polled: CoroutinePolled,
    r: CoroutinePolled,
)
    requires
        call_ensures(StarTask::poll, (star, polled), r),
    ensures
        old(star).coroutine is Some ==> r == polled,
        old(star).coroutine is None ==> r == (CoroutinePolled::Ready {
            value: old(star).return_value,
        }),
        old(star).coroutine is Some ==> (polled matches CoroutinePolled::Ready { value }
            ==> final(star).return_value == value),
        old(star).coroutine is None || polled is Pending ==> *final(star) == *old(star),
        final(star).task == old(star).task,
{
}


/// A range whose pages are all mapped, to physical pages that follow each other, is translated.
pub proof fn law_mapped_range_is_translated(
    pages: BTreeMap<usize, usize>,
    offset: usize,
    user_va: usize,
    len: usize,
    addr: Option<usize>,
)
    requires
        call_ensures(translate_user_range, (&pages, offset, user_va, len), addr),
        user_va + len + 4096 <= usize::MAX,
        pages@.contains_key((user_va - user_va % 4096) as usize),
        forall|p: int|
            #![trigger pages@.contains_key(p as usize)]
            p % 4096 == 0 && user_va - user_va % 4096 <= p < user_va + len ==> pages@.contains_key(
                p as usize,
            ) && pages@[p as usize] == pages@[(user_va - user_va % 4096) as usize] + (p - (user_va
                - user_va % 4096)),
    ensures
        addr is Some,
        addr matches Some(a) ==> a == pages@[(user_va - user_va % 4096) as usize] + offset + user_va
            % 4096,
{
    let first = page_of(user_va as int);
    let last = last_page_of(user_va as int, len as int);
    assert forall|p: int|
        #![trigger pages@.contains_key(p as usize)]
        first <= p <= last && p % 4096 == 0 implies pages@.contains_key(p as usize)
        && pages@[p as usize] == pages@[first as usize] + (p - first) by {
        if len == 0 {
            assert(p == first);
        } else {
            assert(p < user_va + len);
        }
    }
    assert(maps_in_a_row(pages@, first, last));
}

/// For another address space, the scheduler's data of a process is where the process's page
/// table has it, if it can be translated, and nowhere otherwise.
pub proof fn law_other_spaces_data_is_translated(
    data: VschedUserDataImpl,
    pos: usize,
    len: usize,
    vspace: usize,
    aspace: AddrSpaceView,
    current: usize,
    addr: usize,
    translated: Option<usize>,
)
    requires
        call_ensures(
            VschedUserDataImpl::get_user_data,
            (&data, pos, len, Some(vspace), &aspace, current),
            addr,
        ),
        vspace >= 0xffffffc000000000,
        data.vdso_start <= pos,
        pos + len <= data.vdso_start + data.vdso_size <= usize::MAX,
        pos < data.vvar_start || pos + len > data.vvar_start + data.vvar_size,
        aspace.vdso_base != 0,
        aspace.vdso_base + (pos - data.vdso_start) <= usize::MAX,
        call_ensures(
            translate_user_range,
            (
                &aspace.pages,
                data.phys_virt_offset,
                (aspace.vdso_base + (pos - data.vdso_start)) as usize,
                len,
            ),
            translated,
        ),
    ensures
        translated matches Some(a) ==> addr == a,
        translated is None ==> addr == 0,
{
}

/// Shared data is where the first page that is mapped to its physical page is.
pub proof fn law_shared_data_is_in_the_page_found(
    data: StarryUserData,
    pos: usize,
    len: usize,
    areas: Vec<(usize, usize)>,
    pages: BTreeMap<usize, usize>,
    addr: usize,
    page: Option<usize>,
)
    requires
        call_ensures(StarryUserData::get_user_data, (&data, pos, len, Some((&areas, &pages))), addr),
        data.vvar_start_pa + data.phys_virt_offset <= pos,
        pos + len <= data.vvar_start_pa + data.phys_virt_offset + data.vvar_size <= usize::MAX,
        ({
            let pa = pos - data.phys_virt_offset;
            call_ensures(
                find_user_vaddr_for_phys,
                (&areas, &pages, (pa - pa % 4096) as usize),
                page,
            )
        }),
    ensures
        page matches Some(v) ==> addr == v + (pos - data.vvar_start_pa - data.phys_virt_offset)
            % 4096,
        page is None ==> addr == 0,
{
}

/// The handler for a trap is what the registered function answered; what is set of a wrapped
/// task is kept.
pub proof fn law_wrapped_tasks_keep_what_they_are_told(
    slot: TrapHandlerFactory,
    answer: usize,
    handler: usize,
    moved: &mut StarTask,
    returned: &mut StarTask,
    pid: usize,
    value: usize,
)
    requires
        call_ensures(get_handler, (&slot, answer), handler),
        call_ensures(StarTask::set_pid, (moved, pid), ()),
        call_ensures(StarTask::set_return_value, (returned, value), ()),
    ensures
        handler == answer,
        *final(moved) == (StarTask { pid, ..*old(moved) }),
        *final(returned) == (StarTask { return_value: value, ..*old(returned) }),
{
}

/// Whether the program headers of an ELF file of the class 2 can be read.
pub open spec fn wide_headers_fit(image: Seq<u8>) -> bool {
    let first = number_at(image, 32, 8);
    let apart = number_at(image, 54, 2);
    let count = number_at(image, 56, 2);
    first == 0 || apart == 0 || count == 0 || {
        &&& first + count * apart <= image.len()
        &&& apart >= 56
        &&& first % 8 == 0
        &&& count == 1 || apart % 8 == 0
    }
}

/// Whether the program headers of an ELF file of the class 1 can be read.
pub open spec fn narrow_headers_fit(image: Seq<u8>) -> bool {
    let first = number_at(image, 28, 4);
    let apart = number_at(image, 42, 2);
    let count = number_at(image, 44, 2);
    first == 0 || apart == 0 || count == 0 || {
        &&& first + count * apart <= image.len()
        &&& apart >= 32
        &&& first % 4 == 0
        &&& count == 1 || apart % 4 == 0
    }
}

/// Program headers can be read exactly if they lie within the file, are as long as their class
/// asks, and are aligned; a file without a header has none that could not be.
pub proof fn law_headers_can_be_read(image: &[u8], fit: bool)
    requires
        call_ensures(check_elf_headers, (image,), fit),
    ensures
        ({
            let i = image@;
            let magic = i.len() >= 16 && i[0] == 0x7f && i[1] == 0x45 && i[2] == 0x4c && i[3]
                == 0x46;
            &&& magic && i[4] == 2 && i.len() >= 64 ==> fit == wide_headers_fit(i)
            &&& magic && i[4] == 1 && i.len() >= 52 ==> fit == narrow_headers_fit(i)
            &&& !magic ==> fit
            &&& magic && i[4] == 2 && i.len() < 64 ==> fit
            &&& magic && i[4] == 1 && i.len() < 52 ==> fit
            &&& magic && i[4] != 1 && i[4] != 2 ==> fit
        }),
{
    lemma_number(image@, 32, 8);
    lemma_number(image@, 28, 4);
    lemma_number(image@, 54, 2);
    lemma_number(image@, 42, 2);
    lemma_number(image@, 56, 2);
    lemma_number(image@, 44, 2);
}

/// Whether the program header number `k` of a file of the class 2 loads a segment, and where
/// that begins and ends.
pub open spec fn wide_segment(image: Seq<u8>, k: int) -> (bool, int, int) {
    let at = number_at(image, 32, 8) + k * number_at(image, 54, 2);
    (
        number_at(image, at, 4) == 1,
        number_at(image, at + 16, 8),
        number_at(image, at + 16, 8) + number_at(image, at + 40, 8),
    )
}

/// An image of the class 2 whose headers can be read, and whose segments begin in the first
/// page and end at addresses, can be loaded, and takes the pages up to the end of the highest
/// segment.
pub proof fn law_loadable_image_has_a_size(image: &[u8], size: Option<usize>, low: int)
    requires
        call_ensures(checked_vdso_runtime_size, (image,), size),
        image@.len() >= 64,
        image@[0] == 0x7f && image@[1] == 0x45 && image@[2] == 0x4c && image@[3] == 0x46,
        image@[4] == 2,
        number_at(image@, 32, 8) != 0,
        number_at(image@, 54, 2) != 0,
        wide_headers_fit(image@),
        0 <= low < number_at(image@, 56, 2),
        wide_segment(image@, low).0 && wide_segment(image@, low).1 < 4096,
        forall|k: int|
            0 <= k < number_at(image@, 56, 2) && (#[trigger] wide_segment(image@, k)).0
                ==> wide_segment(image@, k).2 + 4095 <= usize::MAX,
    ensures
        size matches Some(s) && s % 4096 == 0 && (s > 0 ==> exists|k: int|
            0 <= k < number_at(image@, 56, 2) && (#[trigger] wide_segment(image@, k)).0 && s
                < wide_segment(image@, k).2 + 4096),
{
    lemma_number(image@, 32, 8);
    lemma_number(image@, 54, 2);
    lemma_number(image@, 56, 2);
    let headers = program_headers(image@).unwrap();
    assert(headers.len() == number_at(image@, 56, 2));
    assert forall|k: int| 0 <= k < headers.len() implies (#[trigger] headers[k]).0 == wide_segment(
        image@,
        k,
    ).0 && headers[k].1 == wide_segment(image@, k).1 && headers[k].1 + headers[k].2
        == wide_segment(image@, k).2 by {
        let at = headers_at(image@) + k * header_entry(image@);
        lemma_number(image@, at, 4);
        lemma_number(image@, at + 16, 8);
        lemma_number(image@, at + 40, 8);
        assert(headers[k] == program_header(image@, at));
    }
    lemma_load_start(headers, headers.len());
    lemma_load_end(headers, headers.len());
    assert(headers[low].0 && headers[low].1 < 4096);
    assert(elf_headers_fit(image@));
    if load_end(headers, headers.len()) > 0 {
        let j = choose|j: int|
            0 <= j < headers.len() && (#[trigger] headers[j]).0 && load_end(headers, headers.len())
                < headers[j].1 + headers[j].2 + 4096;
        assert(wide_segment(image@, j).0);
    }
}


/// A wrapped task answers with what it holds, and the function that finds handlers is the one
/// registered last.
pub proof fn law_wrapped_tasks_answer_with_what_they_hold(
    task: StarTask,
    inner: &AxTask,
    priority: isize,
    coroutine: bool,
    pid: usize,
    base: usize,
    slot: &mut TrapHandlerFactory,
    factory: usize,
)
    requires
        call_ensures(StarTask::inner, (&task,), inner),
        call_ensures(StarTask::priority, (&task,), priority),
        call_ensures(StarTask::is_coroutine, (&task,), coroutine),
        call_ensures(StarTask::pid, (&task,), pid),
        call_ensures(StarTask::thread_stack_base, (&task,), base),
        call_ensures(register_trap_handler_factory, (slot, factory), ()),
    ensures
        *inner == task.task,
        priority == task.priority,
        coroutine == task.is_coroutine,
        pid == task.pid,
        base == task.thread_stack_base,
        final(slot).factory == factory,
{
}

/// The two ways to ask for what an image takes in memory agree.
pub proof fn law_image_has_one_size(image: &[u8], size: usize, checked: Option<usize>)
    requires
        call_ensures(vdso_runtime_size, (image,), size),
        call_ensures(checked_vdso_runtime_size, (image,), checked),
        checked is Some,
    ensures
        checked == Some(size),
{
}

/// Nothing is known of a context at first, and an object that was not loaded is nowhere.
pub proof fn law_nothing_is_placed_at_first(context: VschedContextImpl, placement: VdsoPlacement)
    requires
        call_ensures(VschedContextImpl::new, (), context),
        call_ensures(VdsoPlacement::new, (), placement),
    ensures
        context.raw_run_task_offset == 0 && context.process_vdso_base == 0,
        placement.vdso_start_pa == 0 && placement.vdso_size == 0,
        placement.vvar_start_pa == 0 && placement.vvar_size == 0,
{
}

} // verus!
