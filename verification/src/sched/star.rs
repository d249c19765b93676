//! The kernel's side of the external scheduler in its first form: a task object wraps a
//! kernel task and holds everything else that the scheduler asks for.

use std::collections::BTreeMap;

use vstd::prelude::*;

use crate::sched::task::AxTask;
use crate::state::{
    ax_state, from_vsched_state, to_vsched_state, vsched_state, AxTaskState, TaskState,
};

verus! {

/// What a poll of a coroutine gave: its value, or nothing yet.
#[derive(Clone, Copy, Debug, Eq, PartialEq, Structural)]
pub enum CoroutinePolled {
    Ready { value: usize },
    Pending,
}

/// A kernel task as the scheduler has it.
#[derive(Clone, Copy, Debug, Eq, PartialEq, Structural)]
pub struct StarTask {
    pub task: AxTask,
    /// The smaller the number, the sooner the task runs.
    pub priority: isize,
    /// The process, by its index in the scheduler's table. 0 is the kernel.
    pub pid: usize,
    pub is_coroutine: bool,
    pub return_value: usize,
    /// The low end of the thread's stack.
    pub thread_stack_base: usize,
    /// The coroutine, by number. A thread has none.
    pub coroutine: Option<usize>,
}

impl StarTask {
    /// Wraps a kernel task. `kernel_stack_top` is the high end of its stack, if it has one.
    pub fn new(
        task: AxTask,
        kernel_stack_top: Option<usize>,
        kernel_stack_size: usize,
        priority: isize,
        pid: usize,
        coroutine: Option<usize>,
    ) -> (star: Self)
        ensures
            star == (StarTask {
                task,
                priority,
                pid,
                is_coroutine: coroutine.is_some(),
                return_value: 0,
                thread_stack_base: match kernel_stack_top {
                    Some(top) => if top >= kernel_stack_size {
                        (top - kernel_stack_size) as usize
                    } else {
                        0
                    },
                    None => 0,
                },
                coroutine,
            }),
    {
        let stack_base: usize = match kernel_stack_top {
            Some(top) => top.saturating_sub(kernel_stack_size),
            None => 0,
        };
        StarTask {
            task,
            priority,
            pid,
            is_coroutine: coroutine.is_some(),
            return_value: 0,
            thread_stack_base: stack_base,
            coroutine,
        }
    }

    /// The kernel task.
    pub fn inner(&self) -> (task: &AxTask)
        ensures
            *task == self.task,
    {
        &self.task
    }

    /// The scheduling state.
    pub fn state(&self) -> (state: TaskState)
        ensures
            state == vsched_state(self.task.state),
    {
        to_vsched_state(self.task.state)
    }

    /// The task in another scheduling state.
    pub open spec fn with_ax_state(self, state: AxTaskState) -> StarTask {
        StarTask { task: AxTask { state, ..self.task }, ..self }
    }

    /// Sets the scheduling state and returns the one before.
    pub fn set_state(&mut self, state: TaskState) -> (previous: TaskState)
        ensures
            previous == vsched_state(old(self).task.state),
            *final(self) == old(self).with_ax_state(ax_state(state)),
    {
        let previous: TaskState = to_vsched_state(self.task.state);
        self.task.state = from_vsched_state(state);
        previous
    }

    /// The priority. The smaller the number, the sooner the task runs.
    pub fn priority(&self) -> (priority: isize)
        ensures
            priority == self.priority,
    {
        self.priority
    }

    /// Whether the task is polled rather than restored.
    pub fn is_coroutine(&self) -> (b: bool)
        ensures
            b == self.is_coroutine,
    {
        self.is_coroutine
    }

    /// The process whose address space the task belongs to.
    pub fn pid(&self) -> (pid: usize)
        ensures
            pid == self.pid,
    {
        self.pid
    }

    /// Gives the task another process: a handler gets that of the task whose trap it handles.
    pub fn set_pid(&mut self, pid: usize)
        ensures
            *final(self) == (StarTask { pid, ..*old(self) }),
    {
        self.pid = pid;
    }

    /// The low end of the thread's stack.
    pub fn thread_stack_base(&self) -> (base: usize)
        ensures
            base == self.thread_stack_base,
    {
        self.thread_stack_base
    }

    /// Keeps the value of a coroutine that has finished.
    pub fn set_return_value(&mut self, value: usize)
        ensures
            *final(self) == (StarTask { return_value: value, ..*old(self) }),
    {
        self.return_value = value;
    }

    /// Keeps a thread's context: it can be scheduled again.
    pub fn save_thread_context(&mut self)
        ensures
            *final(self) == old(self).with_ax_state(AxTaskState::Ready),
    {
        self.task.state = AxTaskState::Ready;
    }

    /// Keeps a trap's context: the task waits until the trap has been handled.
    pub fn save_trap_context(&mut self)
        ensures
            *final(self) == old(self).with_ax_state(AxTaskState::Blocked),
    {
        self.task.state = AxTaskState::Blocked;
    }

    /// Takes what a poll of the task's coroutine gave, and keeps its value. A thread counts
    /// as finished; `polled` is not looked at then.
    pub fn poll(&mut self, polled: CoroutinePolled) -> (r: CoroutinePolled)
        ensures
            r == (if old(self).coroutine.is_some() {
                polled
            } else {
                CoroutinePolled::Ready { value: old(self).return_value }
            }),
            *final(self) == (match (old(self).coroutine, polled) {
                (Some(_), CoroutinePolled::Ready { value }) => (StarTask {
                    return_value: value,
                    ..*old(self)
                }),
                _ => *old(self),
            }),
    {
        if self.coroutine.is_some() {
            if let CoroutinePolled::Ready { value } = polled {
                self.return_value = value;
            }
            polled
        } else {
            CoroutinePolled::Ready { value: self.return_value }
        }
    }
}

/// The root that is written to the page table register to switch to an address space, if it
/// is written. `vspace` is the address space, by address, or 0, and `root` the root of its
/// page table, or 0.
pub fn switch_vspace(vspace: usize, root: usize, current_root: usize) -> (load: Option<usize>)
    ensures
        load == (if vspace != 0 && root != 0 && root != current_root {
            Some(root)
        } else {
            None
        }),
{
    if vspace == 0 {
        return None;
    }
    if root == 0 {
        return None;
    }
    if current_root != root {
        Some(root)
    } else {
        None
    }
}

/// The function that finds a handler for a trap, by address, or 0.
pub struct TrapHandlerFactory {
    pub factory: usize,
}

/// Registers the function that finds a handler for a trap.
pub fn register_trap_handler_factory(slot: &mut TrapHandlerFactory, factory: usize)
    ensures
        final(slot).factory == factory,
{
    slot.factory = factory;
}

/// The handler for a trap: what the registered function answered, which is not null.
pub fn get_handler(slot: &TrapHandlerFactory, answer: usize) -> (handler: usize)
    requires
        slot.factory != 0,
        answer != 0,
    ensures
        handler == answer,
{
    answer
}

/// The first page from `vaddr` on, up to `end`, that is mapped to `target`.
pub open spec fn find_in_area(
    pages: Map<usize, usize>,
    vaddr: int,
    end: int,
    target: usize,
) -> Option<int>
    decreases end + 4096 - vaddr,
{
    if vaddr >= end {
        None
    } else if pages.contains_key(vaddr as usize) && pages[vaddr as usize] == target {
        Some(vaddr)
    } else {
        find_in_area(pages, vaddr + 4096, end, target)
    }
}

/// The first page of the areas from index `i` on that is mapped to `target`.
pub open spec fn find_in_areas(
    areas: Seq<(usize, usize)>,
    pages: Map<usize, usize>,
    i: int,
    target: usize,
) -> Option<int>
    decreases areas.len() - i,
{
    if i < 0 || i >= areas.len() {
        None
    } else {
        match find_in_area(pages, areas[i].0 as int, areas[i].1 as int, target) {
            Some(vaddr) => Some(vaddr),
            None => find_in_areas(areas, pages, i + 1, target),
        }
    }
}

/// The user address that is mapped to the physical page `target`: the first one in the
/// address space's areas, each given by its first address and its end.
pub fn find_user_vaddr_for_phys(
    areas: &Vec<(usize, usize)>,
    pages: &BTreeMap<usize, usize>,
    target: usize,
) -> (vaddr: Option<usize>)
    requires
        forall|i: int| 0 <= i < areas@.len() ==> (#[trigger] areas@[i]).1 + 4096 <= usize::MAX,
    ensures
        ({
            let found = find_in_areas(areas@, pages@, 0, target);
            &&& vaddr.is_some() == found.is_some()
            &&& vaddr.is_some() ==> vaddr.unwrap() == found.unwrap()
        }),
{
    broadcast use vstd::std_specs::btree::group_btree_axioms;

    let mut i: usize = 0;
    while i < areas.len()
        invariant
            i <= areas@.len(),
            forall|j: int| 0 <= j < areas@.len() ==> (#[trigger] areas@[j]).1 + 4096 <= usize::MAX,
            find_in_areas(areas@, pages@, 0, target) == find_in_areas(
                areas@,
                pages@,
                i as int,
                target,
            ),
        decreases areas@.len() - i,
    {
        let (start, end): (usize, usize) = areas[i];
        let mut vaddr: usize = start;
        while vaddr < end
            invariant
                i < areas@.len(),
                areas@[i as int] == (start, end),
                end + 4096 <= usize::MAX,
                find_in_areas(areas@, pages@, 0, target) == find_in_areas(
                    areas@,
                    pages@,
                    i as int,
                    target,
                ),
                find_in_area(pages@, start as int, end as int, target) == find_in_area(
                    pages@,
                    vaddr as int,
                    end as int,
                    target,
                ),
            decreases end + 4096 - vaddr,
        {
            if let Some(paddr) = pages.get(&vaddr) {
                if *paddr == target {
                    return Some(vaddr);
                }
            }
            vaddr += 4096;
        }
        i += 1;
    }
    None
}

/// Where the data is that the kernel shares with user space.
#[derive(Clone, Copy, Debug, Eq, PartialEq, Structural)]
pub struct StarryUserData {
    pub vvar_start_pa: usize,
    pub vvar_size: usize,
    /// What is added to a physical address to get the kernel's address of it.
    pub phys_virt_offset: usize,
}

impl StarryUserData {
    /// Where the kernel has the data.
    pub open spec fn kernel_start(self) -> int {
        self.vvar_start_pa + self.phys_virt_offset
    }

    /// Where the address space of the current thread has the data that the kernel has at
    /// `pos`, `len` bytes long; 0 if that is nowhere. `aspace` is that address space, by its
    /// areas and pages. A task that is no thread has none.
    pub fn get_user_data(
        &self,
        pos: usize,
        len: usize,
        aspace: Option<(&Vec<(usize, usize)>, &BTreeMap<usize, usize>)>,
    ) -> (addr: usize)
        requires
            self.kernel_start() + self.vvar_size <= usize::MAX,
            aspace matches Some(a) ==> forall|i: int|
                0 <= i < a.0@.len() ==> (#[trigger] a.0@[i]).1 + 4096 <= usize::MAX,
        ensures
            addr == ({
                let offset = pos - self.kernel_start();
                let page = (self.vvar_start_pa + offset) - (self.vvar_start_pa + offset) % 4096;
                if aspace.is_some() && 0 <= offset && offset + len <= self.vvar_size {
                    let a = aspace.unwrap();
                    match find_in_areas(a.0@, a.1@, 0, page as usize) {
                        Some(vaddr) => vaddr + offset % 4096,
                        None => 0,
                    }
                } else {
                    0
                }
            }),
    {
        if len > self.vvar_size {
            return 0;
        }
        let kernel_vvar_start: usize = self.vvar_start_pa + self.phys_virt_offset;
        let kernel_vvar_end: usize = kernel_vvar_start + self.vvar_size;
        let end: usize = match pos.checked_add(len) {
            Some(end) => end,
            None => {
                return 0;
            },
        };
        if pos < kernel_vvar_start || end > kernel_vvar_end {
            return 0;
        }
        let offset: usize = pos - kernel_vvar_start;
        match aspace {
            Some((areas, pages)) => {
                let target: usize = self.vvar_start_pa + offset;
                let target_page_pa: usize = target - target % 4096;
                match find_user_vaddr_for_phys(areas, pages, target_page_pa) {
                    Some(user_page) => {
                        proof {
                            lemma_found_below_end(areas@, pages@, 0, target_page_pa);
                        }
                        user_page + offset % 4096
                    },
                    None => 0,
                }
            },
            None => 0,
        }
    }
}

proof fn lemma_found_below_end(
    areas: Seq<(usize, usize)>,
    pages: Map<usize, usize>,
    i: int,
    target: usize,
)
    requires
        0 <= i,
        forall|j: int| 0 <= j < areas.len() ==> (#[trigger] areas[j]).1 + 4096 <= usize::MAX,
    ensures
        find_in_areas(areas, pages, i, target) matches Some(vaddr) ==> vaddr + 4096 <= usize::MAX,
    decreases areas.len() - i,
{
    if i < areas.len() {
        lemma_found_in_area(pages, areas[i].0 as int, areas[i].1 as int, target);
        lemma_found_below_end(areas, pages, i + 1, target);
    }
}

proof fn lemma_found_in_area(pages: Map<usize, usize>, vaddr: int, end: int, target: usize)
    ensures
        find_in_area(pages, vaddr, end, target) matches Some(found) ==> vaddr <= found < end
            && pages.contains_key(found as usize) && pages[found as usize] == target,
    decreases end + 4096 - vaddr,
{
    if vaddr < end {
        lemma_found_in_area(pages, vaddr + 4096, end, target);
    }
}

/// A user address that was found for a physical page is mapped to it.
pub proof fn law_found_page_is_the_page(
    areas: Seq<(usize, usize)>,
    pages: Map<usize, usize>,
    i: int,
    target: usize,
)
    requires
        0 <= i,
    ensures
        find_in_areas(areas, pages, i, target) matches Some(vaddr) ==> pages.contains_key(
            vaddr as usize,
        ) && pages[vaddr as usize] == target,
    decreases areas.len() - i,
{
    if i < areas.len() {
        lemma_found_in_area(pages, areas[i].0 as int, areas[i].1 as int, target);
        law_found_page_is_the_page(areas, pages, i + 1, target);
    }
}

} // verus!
