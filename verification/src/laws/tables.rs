//! The table of shared task slots, and the names of tasks and processes.

use vstd::prelude::*;

use crate::abi::process::VschedProcessId;
use crate::abi::slot::SharedTaskSlot;
use crate::abi::table::SharedTaskTable;
use crate::abi::task::{decode_task, encode_task, UserTaskKey};
use crate::state::{
    from_vsched_state, state_from_raw, state_to_raw, to_vsched_state, AxTaskState, TaskState,
};
use crate::vdso::starry::StarryVvar;

verus! {

/// Whether a handle names the task in its slot.
pub open spec fn names(table: SharedTaskTable, key: UserTaskKey) -> bool {
    key.slot < 64 && table.slots@[key.slot as int].state == 2
        && table.slots@[key.slot as int].generation == key.generation
}

/// Whether every slot but that of `key` is as it was.
pub open spec fn only_slot(before: SharedTaskTable, after: SharedTaskTable, key: UserTaskKey) -> bool {
    forall|i: int|
        0 <= i < 64 && i != key.slot ==> #[trigger] after.slots@[i] == before.slots@[i]
}

/// A process ID is what the scheduler gave, unless that is the kernel's 0 or no ID at all.
pub proof fn law_process_ids_are_users(
    raw: usize,
    id: Option<VschedProcessId>,
    back: usize,
    user: bool,
    kernel: VschedProcessId,
    kernel_user: bool,
    kernel_raw: usize,
)
    requires
        call_ensures(VschedProcessId::from_user_raw, (raw,), id),
        id matches Some(i) ==> call_ensures(VschedProcessId::as_raw, (i,), back) && call_ensures(
            VschedProcessId::is_user,
            (i,),
            user,
        ),
        call_ensures(VschedProcessId::kernel, (), kernel),
        call_ensures(VschedProcessId::is_user, (kernel,), kernel_user),
        call_ensures(VschedProcessId::as_raw, (kernel,), kernel_raw),
    ensures
        id is Some <==> raw != 0 && raw != usize::MAX,
        id is Some ==> back == raw && user,
        !kernel_user,
        kernel_raw == 0,
{
}

/// A handle and its task ID stand for each other, and a task ID is odd, so that no pointer is
/// taken for one.
pub proof fn law_handles_have_their_ids(
    key: UserTaskKey,
    id: Option<usize>,
    back: Option<UserTaskKey>,
    other: UserTaskKey,
    other_id: Option<usize>,
)
    requires
        call_ensures(encode_task, (key,), id),
        call_ensures(encode_task, (other,), other_id),
        id matches Some(raw) ==> call_ensures(decode_task, (raw,), back),
    ensures
        id is Some <==> key.slot < 64 && 1 <= key.generation <= usize::MAX / 128,
        id matches Some(raw) ==> raw % 2 == 1 && back == Some(key),
        id matches Some(raw) ==> raw == key.generation * 128 + key.slot * 2 + 1,
        id is Some && id == other_id ==> key == other,
{
}

/// A number is a task ID exactly if it is odd and has a generation, and the handle that it
/// stands for has that ID.
pub proof fn law_ids_have_their_handles(
    raw: usize,
    key: Option<UserTaskKey>,
    back: Option<usize>,
)
    requires
        call_ensures(decode_task, (raw,), key),
        key matches Some(k) ==> call_ensures(encode_task, (k,), back),
    ensures
        key is Some <==> raw % 2 == 1 && raw / 128 != 0,
        key is Some ==> back == Some(raw),
{
}

/// A task gets the first free slot, in another generation than the slot had, and the slot shows
/// a ready task of its process and priority, with no context and no owner. None is given to
/// what is no user process, nor without a free slot; then nothing changes.
pub proof fn law_task_gets_a_free_slot(
    table: &mut SharedTaskTable,
    process_id: VschedProcessId,
    priority: isize,
    key: Option<UserTaskKey>,
)
    requires
        call_ensures(SharedTaskTable::allocate, (table, process_id, priority), key),
    ensures
        key is Some <==> process_id@ != 0 && process_id@ != usize::MAX && exists|i: int|
            0 <= i < 64 && (#[trigger] old(table).slots@[i]).state == 0,
        key is None ==> final(table).slots@ == old(table).slots@,
        key matches Some(k) ==> {
            let slot = final(table).slots@[k.slot as int];
            let before = old(table).slots@[k.slot as int];
            &&& k.slot < 64
            &&& before.state == 0
            &&& forall|i: int|
                0 <= i < k.slot ==> (#[trigger] old(table).slots@[i]).state != 0
            &&& only_slot(*old(table), *final(table), k)
            &&& names(*final(table), k)
            &&& k.generation != before.generation
            &&& 1 <= k.generation <= usize::MAX / 128
            &&& before.generation < usize::MAX / 128 ==> k.generation == before.generation + 1
            &&& slot.task_state == 0
            &&& slot.process_id == process_id@
            &&& slot.priority == priority
            &&& slot.context_kind == 0
            &&& slot.context_owner == usize::MAX
            &&& slot.queue_owner == usize::MAX
            &&& slot.stack_base == 0
            &&& slot.stack_size == 0
            &&& slot.context == 0
            &&& slot.wake_cpu == usize::MAX
        },
{
}

/// A handle that is released names nothing any more: its slot is free, shows nothing, and is in
/// another generation. A handle that names nothing releases nothing.
pub proof fn law_released_handle_names_nothing(
    table: &mut SharedTaskTable,
    key: UserTaskKey,
    ok: bool,
    after: bool,
)
    requires
        call_ensures(SharedTaskTable::release, (table, key), ok),
        call_ensures(SharedTaskTable::is_live, (&*final(table), key), after),
    ensures
        ok <==> names(*old(table), key),
        !after,
        ok ==> {
            let slot = final(table).slots@[key.slot as int];
            &&& slot.state == 0
            &&& slot.generation != key.generation
            &&& key.generation < usize::MAX / 128 ==> slot.generation == key.generation + 1
            &&& slot.task_state == 3
            &&& slot.context_kind == 0
            &&& slot.context_owner == usize::MAX
            &&& slot.queue_owner == usize::MAX
            &&& slot.process_id == usize::MAX
            &&& slot.context == 0
            &&& only_slot(*old(table), *final(table), key)
        },
        !ok ==> final(table).slots@ == old(table).slots@,
{
}

/// What is read by a handle is what its slot holds, and nothing by a handle that names nothing.
pub proof fn law_handle_reads_its_slot(
    table: SharedTaskTable,
    key: UserTaskKey,
    live: bool,
    state: Option<usize>,
    priority: Option<isize>,
    kind: Option<usize>,
    cpu: Option<usize>,
    process: Option<VschedProcessId>,
)
    requires
        call_ensures(SharedTaskTable::is_live, (&table, key), live),
        call_ensures(SharedTaskTable::task_state, (&table, key), state),
        call_ensures(SharedTaskTable::priority, (&table, key), priority),
        call_ensures(SharedTaskTable::context_kind, (&table, key), kind),
        call_ensures(SharedTaskTable::wake_cpu, (&table, key), cpu),
        call_ensures(SharedTaskTable::process_id, (&table, key), process),
    ensures
        live <==> names(table, key),
        !live ==> state is None && priority is None && kind is None && cpu is None && process
            is None,
        live ==> {
            let slot = table.slots@[key.slot as int];
            &&& state == Some(slot.task_state)
            &&& priority == Some(slot.priority)
            &&& kind == Some(slot.context_kind)
            &&& cpu == Some(slot.wake_cpu)
            &&& process is Some <==> slot.process_id != 0 && slot.process_id != usize::MAX
            &&& process matches Some(p) ==> p@ == slot.process_id
        },
{
}

/// A state is set by a live handle only; the one before is returned, and nothing but the state
/// changes. The exchange happens exactly if the task is in the state that is expected.
pub proof fn law_state_is_set_by_a_live_handle(
    table: &mut SharedTaskTable,
    swapped: &mut SharedTaskTable,
    key: UserTaskKey,
    from: usize,
    to: usize,
    ok: bool,
    previous: Option<usize>,
)
    requires
        call_ensures(SharedTaskTable::compare_exchange_task_state, (table, key, from, to), ok),
        call_ensures(SharedTaskTable::swap_task_state, (swapped, key, to), previous),
    ensures
        ok <==> names(*old(table), key) && old(table).slots@[key.slot as int].task_state == from,
        ok ==> final(table).slots@[key.slot as int] == (SharedTaskSlot {
            task_state: to,
            ..old(table).slots@[key.slot as int]
        }) && only_slot(*old(table), *final(table), key),
        !ok ==> final(table).slots@ == old(table).slots@,
        previous is Some <==> names(*old(swapped), key),
        previous matches Some(p) ==> {
            &&& p == old(swapped).slots@[key.slot as int].task_state
            &&& final(swapped).slots@[key.slot as int] == (SharedTaskSlot {
                task_state: to,
                ..old(swapped).slots@[key.slot as int]
            })
            &&& only_slot(*old(swapped), *final(swapped), key)
        },
        previous is None ==> final(swapped).slots@ == old(swapped).slots@,
{
}

/// A state is matched to the one that is given for it.
pub proof fn law_state_is_matched(
    table: &mut SharedTaskTable,
    key: UserTaskKey,
    ready: usize,
    running: usize,
    blocked: usize,
    exited: usize,
    blocking: usize,
    previous: Option<usize>,
)
    requires
        call_ensures(
            SharedTaskTable::match_set_task_state,
            (table, key, ready, running, blocked, exited, blocking),
            previous,
        ),
    ensures
        ({
            let before = old(table).slots@[key.slot as int].task_state;
            let after = final(table).slots@[key.slot as int].task_state;
            &&& previous is Some <==> names(*old(table), key) && before <= 4
            &&& previous matches Some(p) ==> {
                &&& p == before
                &&& p == 0 ==> after == ready
                &&& p == 1 ==> after == running
                &&& p == 2 ==> after == blocked
                &&& p == 3 ==> after == exited
                &&& p == 4 ==> after == blocking
                &&& only_slot(*old(table), *final(table), key)
                &&& final(table).slots@[key.slot as int].generation == key.generation
            }
            &&& previous is None ==> final(table).slots@ == old(table).slots@
        }),
{
}

/// A setting by a live handle is what the slot holds then; by any other handle nothing changes.
/// Only the three forms of a context can be set, and only a user process.
pub proof fn law_settings_are_made_by_a_live_handle(
    kinds: &mut SharedTaskTable,
    processes: &mut SharedTaskTable,
    cpus: &mut SharedTaskTable,
    key: UserTaskKey,
    kind: usize,
    process: VschedProcessId,
    cpu: usize,
    kind_ok: bool,
    process_ok: bool,
    cpu_ok: bool,
)
    requires
        call_ensures(SharedTaskTable::set_context_kind, (kinds, key, kind), kind_ok),
        call_ensures(SharedTaskTable::set_process_id, (processes, key, process), process_ok),
        call_ensures(SharedTaskTable::set_wake_cpu, (cpus, key, cpu), cpu_ok),
    ensures
        kind_ok <==> names(*old(kinds), key) && 1 <= kind <= 3,
        kind_ok ==> final(kinds).slots@[key.slot as int] == (SharedTaskSlot {
            context_kind: kind,
            ..old(kinds).slots@[key.slot as int]
        }) && only_slot(*old(kinds), *final(kinds), key),
        !kind_ok ==> final(kinds).slots@ == old(kinds).slots@,
        process_ok <==> names(*old(processes), key) && process@ != 0 && process@ != usize::MAX,
        process_ok ==> final(processes).slots@[key.slot as int] == (SharedTaskSlot {
            process_id: process@,
            ..old(processes).slots@[key.slot as int]
        }) && only_slot(*old(processes), *final(processes), key),
        !process_ok ==> final(processes).slots@ == old(processes).slots@,
        cpu_ok <==> names(*old(cpus), key),
        cpu_ok ==> final(cpus).slots@[key.slot as int] == (SharedTaskSlot {
            wake_cpu: cpu,
            ..old(cpus).slots@[key.slot as int]
        }) && only_slot(*old(cpus), *final(cpus), key),
        !cpu_ok ==> final(cpus).slots@ == old(cpus).slots@,
{
}

/// A context, and a place in a queue, have one owner at most: it is claimed exactly if nobody
/// has it, by a token that is one, and given up exactly by its owner.
pub proof fn law_claims_are_exclusive(
    contexts: &mut SharedTaskTable,
    queues: &mut SharedTaskTable,
    released: &mut SharedTaskTable,
    unqueued: &mut SharedTaskTable,
    key: UserTaskKey,
    owner: usize,
    claimed: bool,
    queued: bool,
    given_up: bool,
    left: bool,
)
    requires
        call_ensures(SharedTaskTable::try_claim_context, (contexts, key, owner), claimed),
        call_ensures(SharedTaskTable::try_claim_queue, (queues, key, owner), queued),
        call_ensures(SharedTaskTable::release_context, (released, key, owner), given_up),
        call_ensures(SharedTaskTable::release_queue, (unqueued, key, owner), left),
    ensures
        claimed <==> names(*old(contexts), key) && owner != usize::MAX && old(contexts).slots@[key.slot as int].context_owner == usize::MAX,
        claimed ==> final(contexts).slots@[key.slot as int] == (SharedTaskSlot {
            context_owner: owner,
            ..old(contexts).slots@[key.slot as int]
        }) && only_slot(*old(contexts), *final(contexts), key),
        !claimed ==> final(contexts).slots@ == old(contexts).slots@,
        queued <==> names(*old(queues), key) && owner != usize::MAX && old(queues).slots@[key.slot as int].queue_owner == usize::MAX,
        queued ==> final(queues).slots@[key.slot as int] == (SharedTaskSlot {
            queue_owner: owner,
            ..old(queues).slots@[key.slot as int]
        }) && only_slot(*old(queues), *final(queues), key),
        !queued ==> final(queues).slots@ == old(queues).slots@,
        given_up <==> names(*old(released), key) && old(released).slots@[key.slot as int].context_owner == owner,
        given_up ==> final(released).slots@[key.slot as int] == (SharedTaskSlot {
            context_owner: usize::MAX,
            ..old(released).slots@[key.slot as int]
        }) && only_slot(*old(released), *final(released), key),
        !given_up ==> final(released).slots@ == old(released).slots@,
        left <==> names(*old(unqueued), key) && old(unqueued).slots@[key.slot as int].queue_owner
            == owner,
        left ==> final(unqueued).slots@[key.slot as int] == (SharedTaskSlot {
            queue_owner: usize::MAX,
            ..old(unqueued).slots@[key.slot as int]
        }) && only_slot(*old(unqueued), *final(unqueued), key),
        !left ==> final(unqueued).slots@ == old(unqueued).slots@,
{
}

/// A context is published exactly by its owner, in one of the three forms, and the first form
/// is given once, while nobody owns the context. What is published is what the slot holds then.
pub proof fn law_context_is_published_by_its_owner(
    owned: &mut SharedTaskTable,
    any: &mut SharedTaskTable,
    first: &mut SharedTaskTable,
    key: UserTaskKey,
    owner: usize,
    kind: usize,
    stack_base: usize,
    stack_size: usize,
    context: usize,
    wake_cpu: usize,
    owned_ok: bool,
    any_ok: bool,
    first_ok: bool,
)
    requires
        call_ensures(
            SharedTaskTable::publish_context_owned,
            (owned, key, owner, kind, stack_base, stack_size, context, wake_cpu),
            owned_ok,
        ),
        call_ensures(
            SharedTaskTable::publish_context,
            (any, key, stack_base, stack_size, context, wake_cpu),
            any_ok,
        ),
        call_ensures(SharedTaskTable::initialize_context_kind, (first, key, kind), first_ok),
    ensures
        owned_ok <==> names(*old(owned), key) && old(owned).slots@[key.slot as int].context_owner
            == owner && 1 <= kind <= 3,
        owned_ok ==> final(owned).slots@[key.slot as int] == (SharedTaskSlot {
            context_kind: kind,
            stack_base,
            stack_size,
            context,
            wake_cpu,
            ..old(owned).slots@[key.slot as int]
        }) && only_slot(*old(owned), *final(owned), key),
        !owned_ok ==> final(owned).slots@ == old(owned).slots@,
        any_ok <==> names(*old(any), key),
        any_ok ==> final(any).slots@[key.slot as int] == (SharedTaskSlot {
            stack_base,
            stack_size,
            context,
            wake_cpu,
            ..old(any).slots@[key.slot as int]
        }) && only_slot(*old(any), *final(any), key),
        !any_ok ==> final(any).slots@ == old(any).slots@,
        first_ok <==> names(*old(first), key) && old(first).slots@[key.slot as int].context_owner
            == usize::MAX && old(first).slots@[key.slot as int].context_kind == 0 && 1 <= kind
            <= 3,
        first_ok ==> final(first).slots@[key.slot as int] == (SharedTaskSlot {
            context_kind: kind,
            ..old(first).slots@[key.slot as int]
        }) && only_slot(*old(first), *final(first), key),
        !first_ok ==> final(first).slots@ == old(first).slots@,
{
}

/// A new table has only free slots.
pub proof fn law_new_table_is_free(table: SharedTaskTable, slot: SharedTaskSlot, i: int)
    requires
        call_ensures(SharedTaskTable::new, (), table),
        call_ensures(SharedTaskSlot::new, (), slot),
        0 <= i < 64,
    ensures
        table.slots@[i].state == 0,
        table.slots@[i].generation == 0,
        table.slots@[i].context_owner == usize::MAX,
        slot == table.slots@[i],
{
}

/// The forms of a state stand for each other, and a ready task is 0 in its slot, a running one
/// 1, a blocked one 2, an exited one 3 and a blocking one 4.
pub proof fn law_states_have_their_forms(
    a: AxTaskState,
    s: TaskState,
    back: AxTaskState,
    raw: usize,
    again: TaskState,
)
    requires
        call_ensures(to_vsched_state, (a,), s),
        call_ensures(from_vsched_state, (s,), back),
        call_ensures(state_to_raw, (s,), raw),
        call_ensures(state_from_raw, (raw,), again),
    ensures
        back == a,
        again == s,
        a is Ready <==> raw == 0,
        a is Running <==> raw == 1,
        a is Blocked <==> raw == 2,
        a is Exited <==> raw == 3,
        a is Blocking <==> raw == 4,
        a is Ready <==> s is Ready,
        a is Running <==> s is Running,
        a is Blocked <==> s is Blocked,
        a is Exited <==> s is Exited,
{
}


/// A slot is changed in its own generation only, and by the rules of who owns what.
pub proof fn law_slot_is_changed_in_its_generation(
    exchanged: &mut SharedTaskSlot,
    published: &mut SharedTaskSlot,
    begun: &mut SharedTaskSlot,
    generation: usize,
    from: usize,
    to: usize,
    owner: usize,
    kind: usize,
    stack_base: usize,
    stack_size: usize,
    context: usize,
    cpu: usize,
    exchanged_ok: bool,
    published_ok: bool,
    begun_ok: bool,
)
    requires
        call_ensures(
            SharedTaskSlot::compare_exchange_task_state,
            (exchanged, generation, from, to),
            exchanged_ok,
        ),
        call_ensures(
            SharedTaskSlot::publish_context_owned,
            (published, generation, owner, kind, stack_base, stack_size, context, cpu),
            published_ok,
        ),
        call_ensures(SharedTaskSlot::initialize_context_kind, (begun, generation, kind), begun_ok),
    ensures
        exchanged_ok <==> old(exchanged).generation == generation && old(exchanged).task_state
            == from,
        exchanged_ok ==> *final(exchanged) == (SharedTaskSlot { task_state: to, ..*old(exchanged) }),
        !exchanged_ok ==> *final(exchanged) == *old(exchanged),
        published_ok <==> old(published).generation == generation && old(published).context_owner
            == owner && 1 <= kind <= 3,
        published_ok ==> *final(published) == (SharedTaskSlot {
            context_kind: kind,
            stack_base,
            stack_size,
            context,
            wake_cpu: cpu,
            ..*old(published)
        }),
        !published_ok ==> *final(published) == *old(published),
        begun_ok <==> old(begun).generation == generation && old(begun).context_owner == usize::MAX
            && old(begun).context_kind == 0 && 1 <= kind <= 3,
        begun_ok ==> *final(begun) == (SharedTaskSlot { context_kind: kind, ..*old(begun) }),
        !begun_ok ==> *final(begun) == *old(begun),
{
}

/// A slot's context, and its place in a queue, are claimed in its own generation and only from
/// nobody, and given up by the owner only.
pub proof fn law_slot_has_one_owner_at_most(
    claimed: &mut SharedTaskSlot,
    released: &mut SharedTaskSlot,
    queued: &mut SharedTaskSlot,
    unqueued: &mut SharedTaskSlot,
    generation: usize,
    owner: usize,
    claimed_ok: bool,
    released_ok: bool,
    queued_ok: bool,
    unqueued_ok: bool,
)
    requires
        call_ensures(SharedTaskSlot::try_claim_context, (claimed, generation, owner), claimed_ok),
        call_ensures(SharedTaskSlot::release_context, (released, generation, owner), released_ok),
        call_ensures(SharedTaskSlot::try_claim_queue, (queued, generation, owner), queued_ok),
        call_ensures(SharedTaskSlot::release_queue, (unqueued, generation, owner), unqueued_ok),
    ensures
        claimed_ok <==> old(claimed).generation == generation && owner != usize::MAX && old(claimed).context_owner == usize::MAX,
        claimed_ok ==> *final(claimed) == (SharedTaskSlot { context_owner: owner, ..*old(claimed) }),
        !claimed_ok ==> *final(claimed) == *old(claimed),
        released_ok <==> old(released).generation == generation && old(released).context_owner
            == owner,
        released_ok ==> *final(released) == (SharedTaskSlot {
            context_owner: usize::MAX,
            ..*old(released)
        }),
        !released_ok ==> *final(released) == *old(released),
        queued_ok <==> old(queued).generation == generation && owner != usize::MAX && old(queued).queue_owner == usize::MAX,
        queued_ok ==> *final(queued) == (SharedTaskSlot { queue_owner: owner, ..*old(queued) }),
        !queued_ok ==> *final(queued) == *old(queued),
        unqueued_ok <==> old(unqueued).generation == generation && old(unqueued).queue_owner
            == owner,
        unqueued_ok ==> *final(unqueued) == (SharedTaskSlot {
            queue_owner: usize::MAX,
            ..*old(unqueued)
        }),
        !unqueued_ok ==> *final(unqueued) == *old(unqueued),
{
}

/// The handle that the next task gets is the one that the table says beforehand.
pub proof fn law_next_handle_is_the_one_given(
    table: &mut SharedTaskTable,
    process_id: VschedProcessId,
    priority: isize,
    next: Option<UserTaskKey>,
    given: Option<UserTaskKey>,
)
    requires
        call_ensures(SharedTaskTable::next_key, (&*table,), next),
        call_ensures(SharedTaskTable::allocate, (table, process_id, priority), given),
        process_id@ != 0,
        process_id@ != usize::MAX,
    ensures
        given == next,
        next is Some <==> exists|i: int|
            0 <= i < 64 && (#[trigger] old(table).slots@[i]).state == 0,
{
    if let Some(a) = next {
        if let Some(b) = given {
            assert(old(table).slots@[a.slot as int].state == 0);
            assert(old(table).slots@[b.slot as int].state == 0);
        }
    }
}


/// Whether a slot is free, of the first generation, and holds nothing of a task.
pub open spec fn is_empty_slot(slot: SharedTaskSlot) -> bool {
    &&& slot.state == 0
    &&& slot.generation == 0
    &&& slot.task_state == 3
    &&& slot.context_kind == 0
    &&& slot.context_owner == usize::MAX
    &&& slot.queue_owner == usize::MAX
    &&& slot.process_id == usize::MAX
    &&& slot.priority == 0
    &&& slot.stack_base == 0
    &&& slot.stack_size == 0
    &&& slot.context == 0
    &&& slot.wake_cpu == usize::MAX
}

/// A new slot is empty, and so are all slots of a new table.
pub proof fn law_slots_are_empty_at_first(
    slot: SharedTaskSlot,
    by_default: SharedTaskSlot,
    table: SharedTaskTable,
    shared: StarryVvar,
    i: int,
)
    requires
        call_ensures(SharedTaskSlot::new, (), slot),
        call_ensures(<SharedTaskSlot as Default>::default, (), by_default),
        call_ensures(SharedTaskTable::new, (), table),
        call_ensures(StarryVvar::new, (), shared),
        0 <= i < 64,
    ensures
        is_empty_slot(slot),
        is_empty_slot(by_default),
        is_empty_slot(table.slots@[i]),
        is_empty_slot(shared.task_table.slots@[i]),
        shared.stage_a_value == 0,
{
}


/// A handle is the slot and the generation that it was made of, and the shared table is the one
/// that the shared data holds.
pub proof fn law_handle_is_its_slot_and_generation(
    slot: usize,
    generation: usize,
    key: UserTaskKey,
    its_slot: usize,
    its_generation: usize,
    shared: StarryVvar,
    table: &SharedTaskTable,
)
    requires
        call_ensures(UserTaskKey::new, (slot, generation), key),
        call_ensures(UserTaskKey::slot, (key,), its_slot),
        call_ensures(UserTaskKey::generation, (key,), its_generation),
        call_ensures(StarryVvar::user_task_table, (&shared,), table),
    ensures
        its_slot == slot,
        its_generation == generation,
        *table == shared.task_table,
{
}

} // verus!
