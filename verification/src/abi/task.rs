//! Stable handles of user tasks and their encoding as task IDs.

use vstd::prelude::*;

verus! {

/// How many shared task slots there are.
///
/// A released slot is used again: the number does not grow with the processes
/// that are created.
pub const SHARED_TASK_SLOT_COUNT: usize = 64;

/// The bit that tells a task ID from a direct task pointer.
///
/// Task objects are at least word aligned, so that bit is clear in every pointer
/// to one.
const USER_TASK_ID_TAG: usize = 1;

const USER_TASK_ID_SLOT_BITS: usize = 6;

const USER_TASK_ID_SLOT_MASK: usize = 63;

/// The largest generation that fits beside the slot index and the tag.
pub const USER_TASK_ID_MAX_GENERATION: usize = usize::MAX / 128;

/// The stable handle of a user task.
///
/// `slot` means something in the shared table only. `generation` keeps a handle of
/// a released slot from naming the task that the slot was given to later.
#[derive(Clone, Copy, Debug, Eq, Hash, Ord, PartialEq, PartialOrd, Structural)]
pub struct UserTaskKey {
    pub slot: usize,
    pub generation: usize,
}

impl UserTaskKey {
    /// Makes a handle out of what the shared table allocated.
    pub fn new(slot: usize, generation: usize) -> (key: Self)
        ensures
            key == (UserTaskKey { slot, generation }),
    {
        UserTaskKey { slot, generation }
    }

    /// The slot index.
    pub fn slot(self) -> (slot: usize)
        ensures
            slot == self.slot,
    {
        self.slot
    }

    /// The slot's generation.
    pub fn generation(self) -> (generation: usize)
        ensures
            generation == self.generation,
    {
        self.generation
    }

    /// Whether the handle has a task ID.
    pub open spec fn encodable(self) -> bool {
        self.slot < SHARED_TASK_SLOT_COUNT && 1 <= self.generation <= USER_TASK_ID_MAX_GENERATION
    }
}

/// The task ID of an encodable handle: from the lowest bit up, the tag, six bits of
/// slot index, and the generation.
pub open spec fn task_id(key: UserTaskKey) -> int {
    key.generation * 128 + key.slot * 2 + 1
}

/// The handle that an odd value stands for.
pub open spec fn task_of_id(id: usize) -> UserTaskKey {
    UserTaskKey { slot: (id / 2) % 64, generation: id / 128 }
}

/// Encodes a stable handle as a task ID for the scheduler's queues.
///
/// The ID is no address. Its tag tells it from a direct task pointer.
pub fn encode_task(key: UserTaskKey) -> (id: Option<usize>)
    ensures
        id.is_some() == key.encodable(),
        id matches Some(value) ==> value == task_id(key),
{
    if key.slot() >= SHARED_TASK_SLOT_COUNT || key.generation() == 0 {
        return None;
    }
    let generation: usize = key.generation();
    if generation > USER_TASK_ID_MAX_GENERATION {
        return None;
    }
    let slot: usize = key.slot();
    let value: usize = ((generation << USER_TASK_ID_SLOT_BITS) | slot) << 1 | USER_TASK_ID_TAG;
    proof {
        let id: usize = (generation * 128 + slot * 2 + 1) as usize;
        assert(id == generation * 128 + slot * 2 + 1);
        assert(((((generation << 6) | slot) << 1) | 1) == id) by (bit_vector)
            requires
                id == generation * 128 + slot * 2 + 1,
                slot < 64,
        ;
    }
    Some(value)
}

/// Recovers the stable handle from a task ID.
///
/// Only the form is looked at: whether the generation is still current is for the
/// shared task table to say.
pub fn decode_task(task: usize) -> (key: Option<UserTaskKey>)
    ensures
        key == (if task % 2 == 1 && task / 128 != 0 {
            Some(task_of_id(task))
        } else {
            None
        }),
{
    proof {
        assert(task & 1 == task % 2) by (bit_vector);
        assert((task >> 1) & 63 == (task / 2) % 64) by (bit_vector);
        assert((task >> 1) >> 6 == task / 128) by (bit_vector);
    }
    if task & USER_TASK_ID_TAG == 0 {
        return None;
    }
    let value: usize = task >> 1;
    let slot: usize = value & USER_TASK_ID_SLOT_MASK;
    let generation: usize = value >> USER_TASK_ID_SLOT_BITS;
    if slot >= SHARED_TASK_SLOT_COUNT || generation == 0 {
        return None;
    }
    Some(UserTaskKey::new(slot, generation))
}

/// Decoding a handle's task ID gives the handle back.
pub proof fn law_decode_undoes_encode(key: UserTaskKey, id: usize)
    requires
        key.encodable(),
        id == task_id(key),
    ensures
        id % 2 == 1,
        id / 128 != 0,
        task_of_id(id) == key,
{
    assert(id / 128 == key.generation);
    assert(id / 2 == key.generation * 64 + key.slot);
}

/// Every value that decodes is the task ID of the handle it decodes to.
pub proof fn law_encode_undoes_decode(id: usize)
    requires
        id % 2 == 1,
        id / 128 != 0,
    ensures
        task_of_id(id).encodable(),
        task_id(task_of_id(id)) == id,
{
    assert(id / 128 <= usize::MAX / 128);
    assert(id / 128 == (id / 2) / 64);
}

/// Different encodable handles have different task IDs.
pub proof fn law_task_ids_are_unique(a: UserTaskKey, b: UserTaskKey)
    requires
        a.encodable(),
        b.encodable(),
        task_id(a) == task_id(b),
    ensures
        a == b,
{
}

/// No task ID is an even number, so none can be taken for a pointer to a task object.
pub proof fn law_task_id_is_no_aligned_address(key: UserTaskKey)
    ensures
        task_id(key) % 2 == 1,
{
}

} // verus!
