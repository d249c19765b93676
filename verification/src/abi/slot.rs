//! One slot of the shared task table.

use vstd::prelude::*;

use crate::abi::process::VSCHED_INVALID_PROCESS_ID;

verus! {

/// What a slot is used for: nothing, being filled, one task, being emptied.
pub const SHARED_TASK_FREE: usize = 0;
pub const SHARED_TASK_RESERVED: usize = 1;
pub const SHARED_TASK_LIVE: usize = 2;
pub const SHARED_TASK_RELEASING: usize = 3;

/// Scheduling states of a shared task.
///
/// They say whether the task may run, and have nothing to do with the values of a
/// slot's `state`, which say what the slot is used for.
pub const SHARED_TASK_READY: usize = 0;
pub const SHARED_TASK_RUNNING: usize = 1;
pub const SHARED_TASK_BLOCKED: usize = 2;
pub const SHARED_TASK_EXITED: usize = 3;
pub const SHARED_TASK_BLOCKING: usize = 4;

/// The form in which a shared task's context is saved.
///
/// `NONE` is for the short time before the first context is published. `TRAP` says
/// that the kernel has the task's trap frame: a user scheduler must not resume it as
/// a coroutine.
pub const SHARED_CONTEXT_NONE: usize = 0;
pub const SHARED_CONTEXT_COROUTINE: usize = 1;
pub const SHARED_CONTEXT_THREAD: usize = 2;
pub const SHARED_CONTEXT_TRAP: usize = 3;

/// Nobody holds the task's context, or its place in a ready queue.
pub const SHARED_OWNER_NONE: usize = usize::MAX;

/// Whether `kind` is the form of a published context.
pub open spec fn is_published_kind(kind: usize) -> bool {
    kind == SHARED_CONTEXT_COROUTINE || kind == SHARED_CONTEXT_THREAD || kind == SHARED_CONTEXT_TRAP
}

fn published_kind(kind: usize) -> (b: bool)
    ensures
        b == is_published_kind(kind),
{
    kind == SHARED_CONTEXT_COROUTINE || kind == SHARED_CONTEXT_THREAD || kind == SHARED_CONTEXT_TRAP
}

/// What a user scheduler can see of a task.
///
/// `stack_base`, `stack_size` and `context` describe memory of the task's own address
/// space: to the kernel they are no addresses to read from. `context_owner` and
/// `generation` say who may change them.
#[derive(Clone, Copy, Debug, Eq, PartialEq, Structural)]
pub struct SharedTaskSlot {
    /// `SHARED_TASK_FREE`, `_RESERVED`, `_LIVE` or `_RELEASING`.
    pub state: usize,
    pub generation: usize,
    /// `SHARED_TASK_READY`, `_RUNNING`, `_BLOCKED`, `_EXITED` or `_BLOCKING`.
    pub task_state: usize,
    /// The form of the context saved last.
    pub context_kind: usize,
    /// The token of whoever saves the context. A token is no pointer: each execution
    /// domain chooses its own.
    pub context_owner: usize,
    /// The token of whoever has the task in a ready queue.
    pub queue_owner: usize,
    pub process_id: usize,
    pub priority: isize,
    pub stack_base: usize,
    pub stack_size: usize,
    pub context: usize,
    pub wake_cpu: usize,
}

impl SharedTaskSlot {
    /// A slot of generation `generation` in lifecycle state `state` that shows no task.
    pub open spec fn blank(state: usize, generation: usize) -> SharedTaskSlot {
        SharedTaskSlot {
            state,
            generation,
            task_state: SHARED_TASK_EXITED,
            context_kind: SHARED_CONTEXT_NONE,
            context_owner: SHARED_OWNER_NONE,
            queue_owner: SHARED_OWNER_NONE,
            process_id: VSCHED_INVALID_PROCESS_ID,
            priority: 0,
            stack_base: 0,
            stack_size: 0,
            context: 0,
            wake_cpu: usize::MAX,
        }
    }

    /// Whether `owner` can claim the context.
    pub open spec fn can_claim_context(self, generation: usize, owner: usize) -> bool {
        owner != SHARED_OWNER_NONE && self.generation == generation && self.context_owner
            == SHARED_OWNER_NONE
    }

    /// Whether `owner` can give the context up.
    pub open spec fn can_release_context(self, generation: usize, owner: usize) -> bool {
        self.generation == generation && self.context_owner == owner
    }

    /// The slot with `owner` holding the context.
    pub open spec fn with_context_owner(self, owner: usize) -> SharedTaskSlot {
        SharedTaskSlot { context_owner: owner, ..self }
    }

    /// Whether `owner` can claim the task's place in a ready queue.
    pub open spec fn can_claim_queue(self, generation: usize, owner: usize) -> bool {
        owner != SHARED_OWNER_NONE && self.generation == generation && self.queue_owner
            == SHARED_OWNER_NONE
    }

    /// Whether `owner` can give the task's place in a ready queue up.
    pub open spec fn can_release_queue(self, generation: usize, owner: usize) -> bool {
        self.generation == generation && self.queue_owner == owner
    }

    /// The slot with `owner` holding the task's place in a ready queue.
    pub open spec fn with_queue_owner(self, owner: usize) -> SharedTaskSlot {
        SharedTaskSlot { queue_owner: owner, ..self }
    }

    /// Makes a free slot.
    pub fn new() -> (slot: Self)
        ensures
            slot == SharedTaskSlot::blank(SHARED_TASK_FREE, 0),
    {
        SharedTaskSlot {
            state: SHARED_TASK_FREE,
            generation: 0,
            task_state: SHARED_TASK_EXITED,
            context_kind: SHARED_CONTEXT_NONE,
            context_owner: SHARED_OWNER_NONE,
            queue_owner: SHARED_OWNER_NONE,
            process_id: VSCHED_INVALID_PROCESS_ID,
            priority: 0,
            stack_base: 0,
            stack_size: 0,
            context: 0,
            wake_cpu: usize::MAX,
        }
    }

    pub(crate) fn clear_projection(&mut self)
        ensures
            *final(self) == SharedTaskSlot::blank(old(self).state, old(self).generation),
    {
        self.task_state = SHARED_TASK_EXITED;
        self.context_kind = SHARED_CONTEXT_NONE;
        self.context_owner = SHARED_OWNER_NONE;
        self.queue_owner = SHARED_OWNER_NONE;
        self.process_id = VSCHED_INVALID_PROCESS_ID;
        self.priority = 0;
        self.stack_base = 0;
        self.stack_size = 0;
        self.context = 0;
        self.wake_cpu = usize::MAX;
    }

    /// Changes the scheduling state from `from` to `to`, if the slot is of `generation`
    /// and the task is in state `from`.
    pub fn compare_exchange_task_state(&mut self, generation: usize, from: usize, to: usize) -> (ok:
        bool)
        ensures
            ok == (old(self).generation == generation && old(self).task_state == from),
            *final(self) == (if ok {
                (SharedTaskSlot { task_state: to, ..*old(self) })
            } else {
                *old(self)
            }),
    {
        if self.generation == generation && self.task_state == from {
            self.task_state = to;
            true
        } else {
            false
        }
    }

    /// The slot after its owner published a context.
    pub open spec fn with_context(
        self,
        context_kind: usize,
        stack_base: usize,
        stack_size: usize,
        context: usize,
        wake_cpu: usize,
    ) -> SharedTaskSlot {
        SharedTaskSlot { context_kind, stack_base, stack_size, context, wake_cpu, ..self }
    }

    /// Publishes the newest context.
    ///
    /// The caller has claimed the context before, and makes the task ready after.
    pub fn publish_context_owned(
        &mut self,
        generation: usize,
        owner: usize,
        context_kind: usize,
        stack_base: usize,
        stack_size: usize,
        context: usize,
        wake_cpu: usize,
    ) -> (ok: bool)
        ensures
            ok == (old(self).generation == generation && old(self).context_owner == owner
                && is_published_kind(context_kind)),
            *final(self) == (if ok {
                old(self).with_context(context_kind, stack_base, stack_size, context, wake_cpu)
            } else {
                *old(self)
            }),
    {
        if self.generation != generation || self.context_owner != owner || !published_kind(
            context_kind,
        ) {
            return false;
        }
        self.stack_base = stack_base;
        self.stack_size = stack_size;
        self.context = context;
        self.context_kind = context_kind;
        self.wake_cpu = wake_cpu;
        true
    }

    /// Claims the context for `owner`, if nobody holds it.
    pub fn try_claim_context(&mut self, generation: usize, owner: usize) -> (ok: bool)
        ensures
            ok == old(self).can_claim_context(generation, owner),
            *final(self) == (if ok {
                old(self).with_context_owner(owner)
            } else {
                *old(self)
            }),
    {
        if owner != SHARED_OWNER_NONE && self.generation == generation && self.context_owner
            == SHARED_OWNER_NONE {
            self.context_owner = owner;
            true
        } else {
            false
        }
    }

    /// Says what form the first context has, while nobody holds the context and no form
    /// has been given yet.
    pub fn initialize_context_kind(&mut self, generation: usize, context_kind: usize) -> (ok: bool)
        ensures
            ok == (old(self).generation == generation && old(self).context_owner
                == SHARED_OWNER_NONE && is_published_kind(context_kind) && old(self).context_kind
                == SHARED_CONTEXT_NONE),
            *final(self) == (if ok {
                (SharedTaskSlot { context_kind, ..*old(self) })
            } else {
                *old(self)
            }),
    {
        if self.generation == generation && self.context_owner == SHARED_OWNER_NONE
            && published_kind(context_kind) && self.context_kind == SHARED_CONTEXT_NONE {
            self.context_kind = context_kind;
            true
        } else {
            false
        }
    }

    /// Gives the context up. Only its owner can.
    pub fn release_context(&mut self, generation: usize, owner: usize) -> (ok: bool)
        ensures
            ok == old(self).can_release_context(generation, owner),
            *final(self) == (if ok {
                old(self).with_context_owner(SHARED_OWNER_NONE)
            } else {
                *old(self)
            }),
    {
        if self.generation == generation && self.context_owner == owner {
            self.context_owner = SHARED_OWNER_NONE;
            true
        } else {
            false
        }
    }

    /// Claims the task's place in a ready queue for `owner`, if nobody has it.
    pub fn try_claim_queue(&mut self, generation: usize, owner: usize) -> (ok: bool)
        ensures
            ok == old(self).can_claim_queue(generation, owner),
            *final(self) == (if ok {
                old(self).with_queue_owner(owner)
            } else {
                *old(self)
            }),
    {
        if owner != SHARED_OWNER_NONE && self.generation == generation && self.queue_owner
            == SHARED_OWNER_NONE {
            self.queue_owner = owner;
            true
        } else {
            false
        }
    }

    /// Gives the place in the ready queue up. Only its owner can.
    pub fn release_queue(&mut self, generation: usize, owner: usize) -> (ok: bool)
        ensures
            ok == old(self).can_release_queue(generation, owner),
            *final(self) == (if ok {
                old(self).with_queue_owner(SHARED_OWNER_NONE)
            } else {
                *old(self)
            }),
    {
        if self.generation == generation && self.queue_owner == owner {
            self.queue_owner = SHARED_OWNER_NONE;
            true
        } else {
            false
        }
    }
}

impl Default for SharedTaskSlot {
    fn default() -> (slot: Self)
        ensures
            slot == SharedTaskSlot::blank(SHARED_TASK_FREE, 0),
    {
        SharedTaskSlot::new()
    }
}

/// While one owner holds the context nobody can claim it, only that owner can give it
/// up, and giving it up leaves the slot as it was before the claim.
pub proof fn law_context_has_one_owner(
    slot: SharedTaskSlot,
    generation: usize,
    owner: usize,
    other_generation: usize,
    other: usize,
)
    requires
        slot.can_claim_context(generation, owner),
    ensures
        !slot.with_context_owner(owner).can_claim_context(other_generation, other),
        slot.with_context_owner(owner).can_release_context(other_generation, other) <==> (
        other_generation == generation && other == owner),
        slot.with_context_owner(owner).with_context_owner(SHARED_OWNER_NONE) == slot,
{
}

/// While one owner holds the place in a ready queue nobody can claim it, only that owner can give it
/// up, and giving it up leaves the slot as it was before the claim.
pub proof fn law_queue_has_one_owner(
    slot: SharedTaskSlot,
    generation: usize,
    owner: usize,
    other_generation: usize,
    other: usize,
)
    requires
        slot.can_claim_queue(generation, owner),
    ensures
        !slot.with_queue_owner(owner).can_claim_queue(other_generation, other),
        slot.with_queue_owner(owner).can_release_queue(other_generation, other) <==> (
        other_generation == generation && other == owner),
        slot.with_queue_owner(owner).with_queue_owner(SHARED_OWNER_NONE) == slot,
{
}

} // verus!
