//! The shared task table.

use vstd::prelude::*;

use crate::abi::process::{is_user_raw, VschedProcessId};
use crate::abi::slot::{
    is_published_kind, SharedTaskSlot, SHARED_CONTEXT_COROUTINE, SHARED_CONTEXT_NONE,
    SHARED_CONTEXT_THREAD, SHARED_CONTEXT_TRAP, SHARED_OWNER_NONE, SHARED_TASK_BLOCKED,
    SHARED_TASK_BLOCKING, SHARED_TASK_EXITED, SHARED_TASK_FREE, SHARED_TASK_LIVE,
    SHARED_TASK_READY, SHARED_TASK_RELEASING, SHARED_TASK_RESERVED, SHARED_TASK_RUNNING,
};
use crate::abi::task::{UserTaskKey, SHARED_TASK_SLOT_COUNT, USER_TASK_ID_MAX_GENERATION};

verus! {

/// The generation that follows `generation`. It stays within what a task ID can
/// hold, and is never 0.
pub open spec fn generation_after(generation: usize) -> usize {
    if generation >= USER_TASK_ID_MAX_GENERATION {
        1
    } else {
        (generation + 1) as usize
    }
}

/// The state that a task in state `current` moves to, given one target for each
/// state. There is none if `current` is no scheduling state.
pub open spec fn matched_state(
    current: usize,
    state_from_ready: usize,
    state_from_running: usize,
    state_from_blocked: usize,
    state_from_exited: usize,
    state_from_blocking: usize,
) -> Option<usize> {
    if current == SHARED_TASK_READY {
        Some(state_from_ready)
    } else if current == SHARED_TASK_RUNNING {
        Some(state_from_running)
    } else if current == SHARED_TASK_BLOCKED {
        Some(state_from_blocked)
    } else if current == SHARED_TASK_EXITED {
        Some(state_from_exited)
    } else if current == SHARED_TASK_BLOCKING {
        Some(state_from_blocking)
    } else {
        None
    }
}

/// The table of shared task slots, of fixed size.
///
/// It hands out slots and checks generations. Which kernel object a task is stands in
/// the kernel's registry: no kernel pointer is ever written here.
pub struct SharedTaskTable {
    pub slots: [SharedTaskSlot; SHARED_TASK_SLOT_COUNT],
}

impl SharedTaskTable {
    /// The slot at `index`.
    pub open spec fn at(self, index: int) -> SharedTaskSlot {
        self.slots@[index]
    }

    /// Whether the handle names the task that its slot holds now.
    pub open spec fn live(self, key: UserTaskKey) -> bool {
        key.slot < SHARED_TASK_SLOT_COUNT && self.at(key.slot as int).generation == key.generation
            && self.at(key.slot as int).state == SHARED_TASK_LIVE
    }

    /// The slot that the handle names.
    pub open spec fn of(self, key: UserTaskKey) -> SharedTaskSlot {
        self.at(key.slot as int)
    }

    /// Whether this table is `before` with only the slot of `key` changed, to `slot`.
    pub open spec fn is_update(self, before: SharedTaskTable, key: UserTaskKey, slot: SharedTaskSlot) -> bool {
        self.slots@ == before.slots@.update(key.slot as int, slot)
    }

    /// Whether every slot is free or live, no generation is too large for a task ID,
    /// a free slot shows no task, and a live one belongs to a user process.
    pub open spec fn wf(self) -> bool {
        forall|i: int| 0 <= i < SHARED_TASK_SLOT_COUNT ==> slot_wf(#[trigger] self.slots@[i])
    }

    /// Makes an empty table.
    pub fn new() -> (table: Self)
        ensures
            table.wf(),
            forall|i: int|
                0 <= i < SHARED_TASK_SLOT_COUNT ==> #[trigger] table.slots@[i]
                    == SharedTaskSlot::blank(SHARED_TASK_FREE, 0),
    {
        SharedTaskTable { slots: [SharedTaskSlot::new();SHARED_TASK_SLOT_COUNT] }
    }

    fn slot(&self, key: UserTaskKey) -> (slot: Option<&SharedTaskSlot>)
        ensures
            slot == (if self.live(key) {
                Some(&self.of(key))
            } else {
                None
            }),
    {
        if key.slot() >= SHARED_TASK_SLOT_COUNT {
            return None;
        }
        let slot: &SharedTaskSlot = &self.slots[key.slot()];
        if slot.generation == key.generation() && slot.state == SHARED_TASK_LIVE {
            Some(slot)
        } else {
            None
        }
    }

    fn next_generation(slot: &mut SharedTaskSlot) -> (generation: usize)
        ensures
            generation == generation_after(old(slot).generation),
            *final(slot) == (SharedTaskSlot { generation, ..*old(slot) }),
    {
        let generation: usize = slot.generation.wrapping_add(1);
        slot.generation = generation;
        if generation == 0 || generation > USER_TASK_ID_MAX_GENERATION {
            slot.generation = 1;
            1
        } else {
            generation
        }
    }

    /// Whether `key` is the handle that the next task gets: that of the first free slot, in the
    /// generation that follows.
    pub open spec fn is_next(self, key: UserTaskKey) -> bool {
        &&& key.slot < SHARED_TASK_SLOT_COUNT
        &&& self.of(key).state == SHARED_TASK_FREE
        &&& forall|i: int|
            0 <= i < key.slot ==> (#[trigger] self.slots@[i]).state != SHARED_TASK_FREE
        &&& key.generation == generation_after(self.of(key).generation)
    }

    /// The handle that the next task gets, if a slot is free.
    pub fn next_key(&self) -> (key: Option<UserTaskKey>)
        ensures
            key.is_some() == self.has_free_slot(),
            key matches Some(k) ==> self.is_next(k),
    {
        let mut slot_index: usize = 0;
        while slot_index < SHARED_TASK_SLOT_COUNT
            invariant
                slot_index <= SHARED_TASK_SLOT_COUNT,
                forall|i: int|
                    0 <= i < slot_index ==> (#[trigger] self.slots@[i]).state != SHARED_TASK_FREE,
            decreases SHARED_TASK_SLOT_COUNT - slot_index,
        {
            if self.slots[slot_index].state == SHARED_TASK_FREE {
                let mut slot: SharedTaskSlot = self.slots[slot_index];
                let generation: usize = Self::next_generation(&mut slot);
                return Some(UserTaskKey::new(slot_index, generation));
            }
            slot_index += 1;
        }
        None
    }

    /// Whether a task can be given a slot.
    pub open spec fn has_free_slot(self) -> bool {
        exists|i: int| 0 <= i < SHARED_TASK_SLOT_COUNT && #[trigger] self.slots@[i].state == SHARED_TASK_FREE
    }

    /// Gives a task of the user process `process_id` a slot: the first free one.
    pub fn allocate(&mut self, process_id: VschedProcessId, priority: isize) -> (key: Option<
        UserTaskKey,
    >)
        ensures
            key.is_some() == (is_user_raw(process_id@) && old(self).has_free_slot()),
            key.is_none() ==> final(self).slots@ == old(self).slots@,
            key matches Some(k) ==> {
                &&& old(self).is_next(k)
                &&& final(self).is_update(
                    *old(self),
                    k,
                    fresh_slot(k.generation, process_id@, priority),
                )
                &&& final(self).live(k)
            },
            old(self).wf() ==> final(self).wf(),
            is_call(
                *old(self),
                *final(self),
                match key {
                    Some(k) => TableCall::Allocate { key: k },
                    None => TableCall::Other,
                },
            ),
    {
        if !process_id.is_user() {
            return None;
        }
        let mut slot_index: usize = 0;
        while slot_index < SHARED_TASK_SLOT_COUNT
            invariant
                slot_index <= SHARED_TASK_SLOT_COUNT,
                is_user_raw(process_id@),
                self.slots@ == old(self).slots@,
                forall|i: int|
                    0 <= i < slot_index ==> (#[trigger] self.slots@[i]).state != SHARED_TASK_FREE,
            decreases SHARED_TASK_SLOT_COUNT - slot_index,
        {
            if self.slots[slot_index].state != SHARED_TASK_FREE {
                slot_index += 1;
                continue;
            }
            let mut slot: SharedTaskSlot = self.slots[slot_index];
            slot.state = SHARED_TASK_RESERVED;
            let generation: usize = Self::next_generation(&mut slot);
            slot.task_state = SHARED_TASK_READY;
            slot.context_kind = SHARED_CONTEXT_NONE;
            slot.context_owner = SHARED_OWNER_NONE;
            slot.queue_owner = SHARED_OWNER_NONE;
            slot.process_id = process_id.as_raw();
            slot.priority = priority;
            slot.stack_base = 0;
            slot.stack_size = 0;
            slot.context = 0;
            slot.wake_cpu = usize::MAX;
            slot.state = SHARED_TASK_LIVE;
            self.slots[slot_index] = slot;
            return Some(UserTaskKey::new(slot_index, generation));
        }
        None
    }

    /// Makes the handle void and frees its slot.
    pub fn release(&mut self, key: UserTaskKey) -> (ok: bool)
        ensures
            ok == old(self).live(key),
            ok ==> final(self).is_update(
                *old(self),
                key,
                SharedTaskSlot::blank(SHARED_TASK_FREE, generation_after(key.generation)),
            ),
            !ok ==> final(self).slots@ == old(self).slots@,
            old(self).wf() ==> final(self).wf(),
            is_call(
                *old(self),
                *final(self),
                if ok {
                    TableCall::Release { key }
                } else {
                    TableCall::Other
                },
            ),
    {
        if key.slot() >= SHARED_TASK_SLOT_COUNT {
            return false;
        }
        let mut slot: SharedTaskSlot = self.slots[key.slot()];
        if slot.generation != key.generation() || slot.state != SHARED_TASK_LIVE {
            return false;
        }
        slot.state = SHARED_TASK_RELEASING;
        // The generation moves on before the slot is free again: no old handle can
        // come to life when the slot is used for another task.
        Self::next_generation(&mut slot);
        slot.clear_projection();
        slot.state = SHARED_TASK_FREE;
        self.slots[key.slot()] = slot;
        true
    }

    /// Whether the handle still names a task.
    pub fn is_live(&self, key: UserTaskKey) -> (b: bool)
        ensures
            b == self.live(key),
            key.slot >= SHARED_TASK_SLOT_COUNT ==> !b,
    {
        self.slot(key).is_some()
    }

    /// Changes the scheduling state from `from` to `to`, if it is `from`.
    pub fn compare_exchange_task_state(&mut self, key: UserTaskKey, from: usize, to: usize) -> (ok: bool)
        ensures
            ok == (old(self).live(key) && old(self).of(key).task_state == from),
            ok ==> final(self).is_update(*old(self), key, (SharedTaskSlot { task_state: to, ..old(self).of(key) })),
            !ok ==> final(self).slots@ == old(self).slots@,
            old(self).wf() ==> final(self).wf(),
            is_call(*old(self), *final(self), TableCall::Other),
    {
        if !self.is_live(key) {
            return false;
        }
        self.slots[key.slot()].compare_exchange_task_state(key.generation(), from, to)
    }

    /// The scheduling state.
    pub fn task_state(&self, key: UserTaskKey) -> (r: Option<usize>)
        ensures
            r == (if self.live(key) {
                Some(self.of(key).task_state)
            } else {
                None
            }),
    {
        match self.slot(key) {
            Some(slot) => Some(slot.task_state),
            None => None,
        }
    }

    /// Sets the scheduling state and returns the one before.
    pub fn swap_task_state(&mut self, key: UserTaskKey, new_state: usize) -> (previous: Option<
        usize,
    >)
        ensures
            previous == (if old(self).live(key) {
                Some(old(self).of(key).task_state)
            } else {
                None
            }),
            old(self).live(key) ==> final(self).is_update(
                *old(self),
                key,
                (SharedTaskSlot { task_state: new_state, ..old(self).of(key) }),
            ),
            !old(self).live(key) ==> final(self).slots@ == old(self).slots@,
            old(self).wf() ==> final(self).wf(),
            is_call(*old(self), *final(self), TableCall::Other),
    {
        if !self.is_live(key) {
            return None;
        }
        let previous: usize = self.slots[key.slot()].task_state;
        self.slots[key.slot()].task_state = new_state;
        Some(previous)
    }

    /// Moves the task to the state that is given for its present one, and returns the
    /// present one.
    pub fn match_set_task_state(
        &mut self,
        key: UserTaskKey,
        state_from_ready: usize,
        state_from_running: usize,
        state_from_blocked: usize,
        state_from_exited: usize,
        state_from_blocking: usize,
    ) -> (previous: Option<usize>)
        ensures
            ({
                let current = old(self).of(key).task_state;
                let next = matched_state(
                    current,
                    state_from_ready,
                    state_from_running,
                    state_from_blocked,
                    state_from_exited,
                    state_from_blocking,
                );
                &&& previous == (if old(self).live(key) && next.is_some() {
                    Some(current)
                } else {
                    None
                })
                &&& previous.is_some() ==> final(self).is_update(
                    *old(self),
                    key,
                    (SharedTaskSlot { task_state: next.unwrap(), ..old(self).of(key) }),
                )
            }),
            previous.is_none() ==> final(self).slots@ == old(self).slots@,
            old(self).wf() ==> final(self).wf(),
            is_call(*old(self), *final(self), TableCall::Other),
    {
        if !self.is_live(key) {
            return None;
        }
        let current: usize = self.slots[key.slot()].task_state;
        let next: usize = if current == SHARED_TASK_READY {
            state_from_ready
        } else if current == SHARED_TASK_RUNNING {
            state_from_running
        } else if current == SHARED_TASK_BLOCKED {
            state_from_blocked
        } else if current == SHARED_TASK_EXITED {
            state_from_exited
        } else if current == SHARED_TASK_BLOCKING {
            state_from_blocking
        } else {
            return None;
        };
        self.slots[key.slot()].task_state = next;
        Some(current)
    }

    /// The priority.
    pub fn priority(&self, key: UserTaskKey) -> (r: Option<isize>)
        ensures
            r == (if self.live(key) {
                Some(self.of(key).priority)
            } else {
                None
            }),
    {
        match self.slot(key) {
            Some(slot) => Some(slot.priority),
            None => None,
        }
    }

    /// The form of the context saved last.
    pub fn context_kind(&self, key: UserTaskKey) -> (r: Option<usize>)
        ensures
            r == (if self.live(key) {
                Some(self.of(key).context_kind)
            } else {
                None
            }),
    {
        match self.slot(key) {
            Some(slot) => Some(slot.context_kind),
            None => None,
        }
    }

    /// Changes the form of the saved context.
    pub fn set_context_kind(&mut self, key: UserTaskKey, context_kind: usize) -> (ok: bool)
        ensures
            ok == (old(self).live(key) && is_published_kind(context_kind)),
            ok ==> final(self).is_update(
                *old(self),
                key,
                (SharedTaskSlot { context_kind, ..old(self).of(key) }),
            ),
            !ok ==> final(self).slots@ == old(self).slots@,
            old(self).wf() ==> final(self).wf(),
            is_call(*old(self), *final(self), TableCall::Other),
    {
        if context_kind != SHARED_CONTEXT_COROUTINE && context_kind != SHARED_CONTEXT_THREAD
            && context_kind != SHARED_CONTEXT_TRAP {
            return false;
        }
        if !self.is_live(key) {
            return false;
        }
        self.slots[key.slot()].context_kind = context_kind;
        true
    }

    /// Moves the task to another user process.
    pub fn set_process_id(&mut self, key: UserTaskKey, process_id: VschedProcessId) -> (ok: bool)
        ensures
            ok == (old(self).live(key) && is_user_raw(process_id@)),
            ok ==> final(self).is_update(
                *old(self),
                key,
                (SharedTaskSlot { process_id: process_id@, ..old(self).of(key) }),
            ),
            !ok ==> final(self).slots@ == old(self).slots@,
            old(self).wf() ==> final(self).wf(),
            is_call(*old(self), *final(self), TableCall::Other),
    {
        if !process_id.is_user() {
            return false;
        }
        if !self.is_live(key) {
            return false;
        }
        self.slots[key.slot()].process_id = process_id.as_raw();
        true
    }

    /// Notes the CPU on which the task ran or was woken last.
    pub fn set_wake_cpu(&mut self, key: UserTaskKey, cpu_id: usize) -> (ok: bool)
        ensures
            ok == old(self).live(key),
            ok ==> final(self).is_update(
                *old(self),
                key,
                (SharedTaskSlot { wake_cpu: cpu_id, ..old(self).of(key) }),
            ),
            !ok ==> final(self).slots@ == old(self).slots@,
            old(self).wf() ==> final(self).wf(),
            is_call(*old(self), *final(self), TableCall::Other),
    {
        if !self.is_live(key) {
            return false;
        }
        self.slots[key.slot()].wake_cpu = cpu_id;
        true
    }

    /// The CPU on which the task ran or was woken last.
    pub fn wake_cpu(&self, key: UserTaskKey) -> (r: Option<usize>)
        ensures
            r == (if self.live(key) {
                Some(self.of(key).wake_cpu)
            } else {
                None
            }),
    {
        match self.slot(key) {
            Some(slot) => Some(slot.wake_cpu),
            None => None,
        }
    }

    /// Claims the task's context for `owner`.
    pub fn try_claim_context(&mut self, key: UserTaskKey, owner: usize) -> (ok: bool)
        ensures
            ok == (old(self).live(key) && old(self).of(key).can_claim_context(key.generation, owner)),
            ok ==> final(self).is_update(*old(self), key, old(self).of(key).with_context_owner(owner)),
            !ok ==> final(self).slots@ == old(self).slots@,
            old(self).wf() ==> final(self).wf(),
            is_call(*old(self), *final(self), TableCall::Other),
    {
        if !self.is_live(key) {
            return false;
        }
        self.slots[key.slot()].try_claim_context(key.generation(), owner)
    }

    /// Says what form the task's first context has.
    pub fn initialize_context_kind(&mut self, key: UserTaskKey, context_kind: usize) -> (ok: bool)
        ensures
            ok == (old(self).live(key) && old(self).of(key).context_owner == SHARED_OWNER_NONE && is_published_kind(context_kind) && old(self).of(key).context_kind == SHARED_CONTEXT_NONE),
            ok ==> final(self).is_update(*old(self), key, (SharedTaskSlot { context_kind, ..old(self).of(key) })),
            !ok ==> final(self).slots@ == old(self).slots@,
            old(self).wf() ==> final(self).wf(),
            is_call(*old(self), *final(self), TableCall::Other),
    {
        if !self.is_live(key) {
            return false;
        }
        self.slots[key.slot()].initialize_context_kind(key.generation(), context_kind)
    }

    /// Publishes the context that `owner` saved.
    pub fn publish_context_owned(
        &mut self,
        key: UserTaskKey,
        owner: usize,
        context_kind: usize,
        stack_base: usize,
        stack_size: usize,
        context: usize,
        wake_cpu: usize,
    ) -> (ok: bool)
        ensures
            ok == (old(self).live(key) && old(self).of(key).context_owner == owner
                && is_published_kind(context_kind)),
            ok ==> final(self).is_update(
                *old(self),
                key,
                old(self).of(key).with_context(
                    context_kind,
                    stack_base,
                    stack_size,
                    context,
                    wake_cpu,
                ),
            ),
            !ok ==> final(self).slots@ == old(self).slots@,
            old(self).wf() ==> final(self).wf(),
            is_call(*old(self), *final(self), TableCall::Other),
    {
        if !self.is_live(key) {
            return false;
        }
        self.slots[key.slot()].publish_context_owned(
            key.generation(),
            owner,
            context_kind,
            stack_base,
            stack_size,
            context,
            wake_cpu,
        )
    }

    /// Gives the task's context up.
    pub fn release_context(&mut self, key: UserTaskKey, owner: usize) -> (ok: bool)
        ensures
            ok == (old(self).live(key) && old(self).of(key).can_release_context(key.generation, owner)),
            ok ==> final(self).is_update(*old(self), key, old(self).of(key).with_context_owner(SHARED_OWNER_NONE)),
            !ok ==> final(self).slots@ == old(self).slots@,
            old(self).wf() ==> final(self).wf(),
            is_call(*old(self), *final(self), TableCall::Other),
    {
        if !self.is_live(key) {
            return false;
        }
        self.slots[key.slot()].release_context(key.generation(), owner)
    }

    /// Claims the task's place in a ready queue for `owner`.
    pub fn try_claim_queue(&mut self, key: UserTaskKey, owner: usize) -> (ok: bool)
        ensures
            ok == (old(self).live(key) && old(self).of(key).can_claim_queue(key.generation, owner)),
            ok ==> final(self).is_update(*old(self), key, old(self).of(key).with_queue_owner(owner)),
            !ok ==> final(self).slots@ == old(self).slots@,
            old(self).wf() ==> final(self).wf(),
            is_call(*old(self), *final(self), TableCall::Other),
    {
        if !self.is_live(key) {
            return false;
        }
        self.slots[key.slot()].try_claim_queue(key.generation(), owner)
    }

    /// Gives the task's place in a ready queue up.
    pub fn release_queue(&mut self, key: UserTaskKey, owner: usize) -> (ok: bool)
        ensures
            ok == (old(self).live(key) && old(self).of(key).can_release_queue(key.generation, owner)),
            ok ==> final(self).is_update(*old(self), key, old(self).of(key).with_queue_owner(SHARED_OWNER_NONE)),
            !ok ==> final(self).slots@ == old(self).slots@,
            old(self).wf() ==> final(self).wf(),
            is_call(*old(self), *final(self), TableCall::Other),
    {
        if !self.is_live(key) {
            return false;
        }
        self.slots[key.slot()].release_queue(key.generation(), owner)
    }

    /// The user process that the task belongs to.
    pub fn process_id(&self, key: UserTaskKey) -> (id: Option<VschedProcessId>)
        ensures
            id.is_some() == (self.live(key) && is_user_raw(self.of(key).process_id)),
            id matches Some(p) ==> p@ == self.of(key).process_id,
    {
        match self.slot(key) {
            Some(slot) => VschedProcessId::from_user_raw(slot.process_id),
            None => None,
        }
    }

    /// Publishes a description of the task's context, whoever owns it.
    ///
    /// `publish_context_owned` is the one to prefer: it keeps one CPU from overwriting
    /// the context of another.
    pub fn publish_context(
        &mut self,
        key: UserTaskKey,
        stack_base: usize,
        stack_size: usize,
        context: usize,
        wake_cpu: usize,
    ) -> (ok: bool)
        ensures
            ok == old(self).live(key),
            ok ==> final(self).is_update(
                *old(self),
                key,
                old(self).of(key).with_context(
                    old(self).of(key).context_kind,
                    stack_base,
                    stack_size,
                    context,
                    wake_cpu,
                ),
            ),
            !ok ==> final(self).slots@ == old(self).slots@,
            old(self).wf() ==> final(self).wf(),
            is_call(*old(self), *final(self), TableCall::Other),
    {
        if !self.is_live(key) {
            return false;
        }
        let mut slot: SharedTaskSlot = self.slots[key.slot()];
        slot.stack_base = stack_base;
        slot.stack_size = stack_size;
        slot.context = context;
        slot.wake_cpu = wake_cpu;
        self.slots[key.slot()] = slot;
        true
    }
}

impl Default for SharedTaskTable {
    fn default() -> (table: Self)
        ensures
            table.wf(),
            forall|i: int|
                0 <= i < SHARED_TASK_SLOT_COUNT ==> #[trigger] table.slots@[i]
                    == SharedTaskSlot::blank(SHARED_TASK_FREE, 0),
    {
        SharedTaskTable::new()
    }
}

/// What a call does to the slots' tasks.
#[derive(Clone, Copy, Debug, Eq, PartialEq, Structural)]
pub enum TableCall {
    /// It gives out a handle.
    Allocate { key: UserTaskKey },
    /// It makes a handle void.
    Release { key: UserTaskKey },
    /// Neither.
    Other,
}

/// Whether every slot but the one at `index` holds the same task, or none, as before.
pub open spec fn keeps_tasks_but(
    before: SharedTaskTable,
    after: SharedTaskTable,
    index: int,
) -> bool {
    forall|i: int|
        #![trigger after.slots@[i]]
        #![trigger before.slots@[i]]
        0 <= i < SHARED_TASK_SLOT_COUNT && i != index ==> after.slots@[i].state
            == before.slots@[i].state && after.slots@[i].generation == before.slots@[i].generation
}

/// Whether a call can lead from one table to the other.
pub open spec fn is_call(before: SharedTaskTable, after: SharedTaskTable, call: TableCall) -> bool {
    match call {
        TableCall::Allocate { key } => before.is_next(key) && after.live(key) && keeps_tasks_but(
            before,
            after,
            key.slot as int,
        ),
        TableCall::Release { key } => before.live(key) && after.of(key).state == SHARED_TASK_FREE
            && after.of(key).generation == generation_after(key.generation) && keeps_tasks_but(
            before,
            after,
            key.slot as int,
        ),
        TableCall::Other => keeps_tasks_but(before, after, -1),
    }
}

/// Whether the calls lead from each table to the next.
pub open spec fn is_run(tables: Seq<SharedTaskTable>, calls: Seq<TableCall>) -> bool {
    &&& tables.len() == calls.len() + 1
    &&& forall|i: int|
        0 <= i < calls.len() ==> is_call(tables[i], tables[i + 1], #[trigger] calls[i])
}

/// Whether a call gives out or frees the slot at `index`.
pub open spec fn changes_slot(call: TableCall, index: usize) -> bool {
    match call {
        TableCall::Allocate { key } => key.slot == index,
        TableCall::Release { key } => key.slot == index,
        TableCall::Other => false,
    }
}

/// How many of the first `n` calls give out or free the slot at `index`.
pub open spec fn slot_changes(calls: Seq<TableCall>, index: usize, n: nat) -> nat
    decreases n,
{
    if n == 0 {
        0
    } else {
        slot_changes(calls, index, (n - 1) as nat) + if changes_slot(calls[n - 1], index) {
            1nat
        } else {
            0nat
        }
    }
}

/// What a slot holds right after it was given to a task.
pub open spec fn fresh_slot(generation: usize, process_id: usize, priority: isize) -> SharedTaskSlot {
    SharedTaskSlot {
        task_state: SHARED_TASK_READY,
        process_id,
        priority,
        ..SharedTaskSlot::blank(SHARED_TASK_LIVE, generation)
    }
}

/// What holds of every slot: see `SharedTaskTable::wf`.
pub open spec fn slot_wf(slot: SharedTaskSlot) -> bool {
    &&& slot.generation <= USER_TASK_ID_MAX_GENERATION
    &&& slot.state == SHARED_TASK_FREE || slot.state == SHARED_TASK_LIVE
    &&& slot.state == SHARED_TASK_FREE ==> slot == SharedTaskSlot::blank(
        SHARED_TASK_FREE,
        slot.generation,
    )
    &&& slot.state == SHARED_TASK_LIVE ==> slot.generation >= 1 && is_user_raw(slot.process_id)
}

/// The generation after `n` steps.
pub open spec fn generation_after_steps(generation: usize, n: nat) -> usize
    decreases n,
{
    if n == 0 {
        generation
    } else {
        generation_after(generation_after_steps(generation, (n - 1) as nat))
    }
}

/// A handle that the table gave out has a task ID, and its generation differs from that
/// of every handle that named the slot before the last change of generation.
pub proof fn law_generations_fit_task_ids(generation: usize)
    ensures
        1 <= generation_after(generation) <= USER_TASK_ID_MAX_GENERATION,
        generation_after(generation) != generation,
{
}

proof fn lemma_generation_steps(generation: usize, n: nat)
    requires
        1 <= generation <= USER_TASK_ID_MAX_GENERATION,
        n < USER_TASK_ID_MAX_GENERATION,
    ensures
        generation_after_steps(generation, n) == if generation + n
            <= USER_TASK_ID_MAX_GENERATION {
            generation + n
        } else {
            generation + n - USER_TASK_ID_MAX_GENERATION
        },
    decreases n,
{
    if n > 0 {
        lemma_generation_steps(generation, (n - 1) as nat);
    }
}

/// A slot comes back to a generation only after as many changes as there are
/// generations: until then a released handle stays void, however often its slot is
/// given out and freed.
pub proof fn law_generation_does_not_come_back_early(generation: usize, n: nat)
    requires
        1 <= generation <= USER_TASK_ID_MAX_GENERATION,
        0 < n < USER_TASK_ID_MAX_GENERATION,
    ensures
        generation_after_steps(generation, n) != generation,
{
    lemma_generation_steps(generation, n);
}

/// Once a handle is released it is void, and it is still void when its slot has been
/// given to another task, whose handle differs from it.
pub proof fn law_release_voids_the_handle(
    before: SharedTaskTable,
    released: SharedTaskTable,
    reused: SharedTaskTable,
    key: UserTaskKey,
    next: UserTaskKey,
    process_id: usize,
    priority: isize,
)
    requires
        before.live(key),
        released.is_update(
            before,
            key,
            SharedTaskSlot::blank(SHARED_TASK_FREE, generation_after(key.generation)),
        ),
        next.slot == key.slot,
        next.generation == generation_after(released.of(next).generation),
        reused.is_update(released, next, fresh_slot(next.generation, process_id, priority)),
    ensures
        !released.live(key),
        !reused.live(key),
        reused.live(next),
        next != key,
{
}

/// Whether one of the first `n` calls made the handle void.
pub open spec fn is_released(calls: Seq<TableCall>, key: UserTaskKey, n: nat) -> bool {
    exists|j: int| 0 <= j < n && #[trigger] calls[j] == (TableCall::Release { key })
}

proof fn lemma_slot_in_a_run(
    tables: Seq<SharedTaskTable>,
    calls: Seq<TableCall>,
    key: UserTaskKey,
    n: nat,
)
    requires
        is_run(tables, calls),
        0 < n <= calls.len(),
        calls[0] == (TableCall::Allocate { key }),
    ensures
        ({
            let changes = slot_changes(calls, key.slot, n);
            let slot = tables[n as int].of(key);
            &&& changes >= 1
            &&& slot.generation == generation_after_steps(key.generation, (changes - 1) as nat)
            &&& changes == 1 ==> slot.state == SHARED_TASK_LIVE
            &&& is_released(calls, key, n) <==> changes > 1
        }),
    decreases n,
{
    assert(is_call(tables[0], tables[1], calls[0]));
    if n == 1 {
        reveal_with_fuel(slot_changes, 2);
        reveal_with_fuel(generation_after_steps, 1);
    } else {
        let m = (n - 1) as nat;
        lemma_slot_in_a_run(tables, calls, key, m);
        let before = tables[m as int];
        let after = tables[n as int];
        let call = calls[m as int];
        assert(is_call(before, after, call));
        assert(before.slots@[key.slot as int] == before.of(key));
        assert(after.slots@[key.slot as int] == after.of(key));
        if is_released(calls, key, m) {
            let j = choose|j: int| 0 <= j < m && #[trigger] calls[j] == (TableCall::Release { key });
            assert(0 <= j < n && calls[j] == (TableCall::Release { key }));
        } else {
            if let TableCall::Release { key: k } = call {
                if k.slot == key.slot {
                    assert(k == key);
                }
            }
        }
    }
}

/// Over any run of calls, a handle is live from the call that gives it out to the call that
/// releases it, and never again: as long as its slot has not been given out and freed as often
/// as there are generations.
pub proof fn law_handle_is_live_until_released(
    tables: Seq<SharedTaskTable>,
    calls: Seq<TableCall>,
    key: UserTaskKey,
    n: nat,
)
    requires
        is_run(tables, calls),
        0 < n <= calls.len(),
        calls[0] == (TableCall::Allocate { key }),
        slot_changes(calls, key.slot, n) <= USER_TASK_ID_MAX_GENERATION,
    ensures
        tables[n as int].live(key) <==> !is_released(calls, key, n),
{
    lemma_slot_in_a_run(tables, calls, key, n);
    assert(is_call(tables[0], tables[1], calls[0]));
    let changes = slot_changes(calls, key.slot, n);
    if changes > 1 {
        law_generation_does_not_come_back_early(key.generation, (changes - 1) as nat);
    }
}

/// A slot has one live handle at most.
pub proof fn law_one_live_handle_per_slot(table: SharedTaskTable, a: UserTaskKey, b: UserTaskKey)
    requires
        table.live(a),
        table.live(b),
        a.slot == b.slot,
    ensures
        a == b,
{
}

/// Every live handle of a well-formed table has a task ID and belongs to a user process.
pub proof fn law_live_handles_are_encodable(table: SharedTaskTable, key: UserTaskKey)
    requires
        table.wf(),
        table.live(key),
    ensures
        key.encodable(),
        is_user_raw(table.of(key).process_id),
{
    assert(slot_wf(table.slots@[key.slot as int]));
}

/// A change of one handle's slot leaves every handle of another slot as it was.
pub proof fn law_other_slots_are_untouched(
    before: SharedTaskTable,
    after: SharedTaskTable,
    key: UserTaskKey,
    slot: SharedTaskSlot,
    other: UserTaskKey,
)
    requires
        after.is_update(before, key, slot),
        key.slot < SHARED_TASK_SLOT_COUNT,
        other.slot < SHARED_TASK_SLOT_COUNT,
        other.slot != key.slot,
    ensures
        after.of(other) == before.of(other),
        after.live(other) == before.live(other),
{
}

} // verus!
