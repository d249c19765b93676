//! Which kernel object a task is: the registry of shared handles, and the task objects.
//!
//! Shared memory only holds what user space may see of a task. The objects stay here, and
//! the fields of a slot, which user space can write, never say which object a task is.

use std::collections::BTreeMap;

use vstd::prelude::*;

use crate::abi::process::{is_user_raw, VschedProcessId};
use crate::abi::slot::{
    SharedTaskSlot, SHARED_CONTEXT_COROUTINE, SHARED_CONTEXT_THREAD, SHARED_TASK_FREE,
};
use crate::abi::table::{fresh_slot, generation_after, SharedTaskTable};
use crate::abi::task::{
    decode_task, law_decode_undoes_encode, task_id, task_of_id, UserTaskKey,
    SHARED_TASK_SLOT_COUNT,
};
use crate::sched::frames::{
    is_frame_call, is_fresh, lemma_frame_saved, lemma_frames_kept, FrameCall,
};
use crate::sched::task::{
    initial_kernel_thread_frame, AxTask, Coroutine, IrqCorotineWrapper, KernelThreadStart,
    VschedTaskImpl, SIE,
};
use crate::sched::trapframe::UserTrapFrame;
use crate::state::{raw_state, state_to_raw, to_vsched_state, vsched_state};

verus! {

/// From shared handles, as slot and generation, to the addresses of task objects, in a
/// `hashbrown::HashMap`.
#[verifier::external_body]
pub struct UserTaskRegistry {
    map: hashbrown::HashMap<(usize, usize), usize>,
}

/// What the registry holds.
pub uninterp spec fn registered(registry: UserTaskRegistry) -> Map<(usize, usize), usize>;

/// Nothing registered.
pub open spec fn none_registered() -> Map<(usize, usize), usize> {
    Map::empty()
}

/// `hashbrown::HashMap::new`: an empty map.
#[verifier::external_body]
fn registry_new() -> (registry: UserTaskRegistry)
    ensures
        registered(registry) == none_registered(),
{
    UserTaskRegistry { map: hashbrown::HashMap::new() }
}

/// `hashbrown::HashMap::insert`: adds a key with its value, and returns the value that the
/// key had before.
#[verifier::external_body]
fn registry_insert(registry: &mut UserTaskRegistry, key: (usize, usize), task: usize) -> (previous:
    Option<usize>)
    ensures
        registered(*final(registry)) == registered(*old(registry)).insert(key, task),
        previous.is_some() == registered(*old(registry)).contains_key(key),
        previous matches Some(p) ==> p == registered(*old(registry))[key],
{
    registry.map.insert(key, task)
}

/// `hashbrown::HashMap::get`: the value of a key.
#[verifier::external_body]
fn registry_get(registry: &UserTaskRegistry, key: (usize, usize)) -> (task: Option<usize>)
    ensures
        task.is_some() == registered(*registry).contains_key(key),
        task matches Some(t) ==> t == registered(*registry)[key],
{
    registry.map.get(&key).copied()
}

/// `hashbrown::HashMap::remove`: takes a key out, and returns the value that it had.
#[verifier::external_body]
fn registry_remove(registry: &mut UserTaskRegistry, key: (usize, usize)) -> (task: Option<usize>)
    ensures
        registered(*final(registry)) == registered(*old(registry)).remove(key),
        task.is_some() == registered(*old(registry)).contains_key(key),
        task matches Some(t) ==> t == registered(*old(registry))[key],
{
    registry.map.remove(&key)
}

/// The shared task table, the registry, and the task objects and their frames by address.
pub struct SchedTasks {
    pub table: SharedTaskTable,
    pub registry: UserTaskRegistry,
    pub objects: BTreeMap<usize, VschedTaskImpl>,
    pub frames: BTreeMap<usize, UserTrapFrame>,
}

/// A shared handle as the registry has it.
pub open spec fn registry_key(key: UserTaskKey) -> (usize, usize) {
    (key.slot, key.generation)
}

/// A shared handle out of the registry.
pub open spec fn key_of(key: (usize, usize)) -> UserTaskKey {
    UserTaskKey { slot: key.0, generation: key.1 }
}

impl SchedTasks {
    /// The object that a registered handle names.
    pub open spec fn object_of(self, key: UserTaskKey) -> usize {
        registered(self.registry)[registry_key(key)]
    }

    /// Whether a handle is registered.
    pub open spec fn is_registered(self, key: UserTaskKey) -> bool {
        registered(self.registry).contains_key(registry_key(key))
    }

    /// Whether the object at `addr` has its frame at `at`.
    pub open spec fn has_frame(self, addr: usize, at: usize) -> bool {
        self.objects@.contains_key(addr) && self.objects@[addr].trap_frame == at
    }

    /// What the frame of the object at `addr` holds, if it has one.
    pub open spec fn frame_of(self, addr: usize) -> Option<UserTrapFrame> {
        if self.objects@.contains_key(addr) && self.objects@[addr].trap_frame != 0 {
            Some(self.frames@[self.objects@[addr].trap_frame])
        } else {
            None
        }
    }

    /// Whether the frame of every object that has one is there, no two objects have the same
    /// frame, and every frame is that of an object.
    pub open spec fn frames_wf(self) -> bool {
        &&& forall|a: usize| #[trigger]
            self.objects@.contains_key(a) ==> (self.objects@[a].trap_frame != 0
                ==> self.frames@.contains_key(self.objects@[a].trap_frame))
        &&& forall|a: usize, b: usize|
            #[trigger] self.objects@.contains_key(a) && #[trigger] self.objects@.contains_key(b)
                && a != b && self.objects@[a].trap_frame != 0 ==> self.objects@[a].trap_frame
                != self.objects@[b].trap_frame
        &&& forall|f: usize| #[trigger]
            self.frames@.contains_key(f) ==> f != 0 && exists|a: usize| self.has_frame(a, f)
    }

    /// Whether registry and objects agree: every registered handle has a task ID and names an
    /// object that has that handle, every object with a handle is a user task and registered
    /// under it, no object is at address 0, and none at an odd address. Each object has its own
    /// frame, if any.
    ///
    /// The shared table has no part in this: user space can write to it, and whatever it
    /// writes there, this stays as it is.
    pub open spec fn kernel_wf(self) -> bool {
        &&& forall|k: (usize, usize)|
            #[trigger] registered(self.registry).contains_key(k) ==> {
                &&& key_of(k).encodable()
                &&& self.objects@.contains_key(registered(self.registry)[k])
                &&& self.objects@[registered(self.registry)[k]].shared_task_key == Some(key_of(k))
            }
        &&& forall|addr: usize| #[trigger]
            self.objects@.contains_key(addr) ==> {
                &&& addr != 0
                &&& addr % 2 == 0
                &&& self.objects@[addr].shared_task_key matches Some(key) ==> {
                    &&& self.is_registered(key)
                    &&& self.object_of(key) == addr
                    &&& !self.objects@[addr].is_kernel
                }
            }
        &&& self.frames_wf()
    }

    /// Whether the shared table is as the kernel left it: every slot is well-formed and every
    /// registered handle is live. Nothing that the kernel does ends this, but user space can.
    pub open spec fn in_step(self) -> bool {
        &&& self.table.wf()
        &&& forall|k: (usize, usize)| #[trigger]
            registered(self.registry).contains_key(k) ==> self.table.live(key_of(k))
    }

    /// Whether the handle that the next task gets is not registered. A table that is as the
    /// kernel left it gives out no such handle twice.
    pub open spec fn next_key_is_new(self) -> bool {
        forall|key: UserTaskKey| self.table.is_next(key) ==> !#[trigger] self.is_registered(key)
    }

    /// Whether a handle names an object: it is registered, and its slot is live in its
    /// generation.
    pub open spec fn names_object(self, key: UserTaskKey) -> bool {
        self.is_registered(key) && self.table.live(key)
    }

    /// The address of the object that a task ID or a direct pointer names.
    pub open spec fn resolve(self, raw: usize) -> Option<usize> {
        if raw % 2 == 1 && raw / 128 != 0 {
            let key = task_of_id(raw);
            if self.is_registered(key) && self.table.live(key) {
                Some(self.object_of(key))
            } else {
                None
            }
        } else if raw != 0 {
            Some(raw)
        } else {
            None
        }
    }

    /// Makes the tables of a system without tasks.
    pub fn new() -> (tasks: Self)
        ensures
            tasks.kernel_wf(),
            tasks.in_step(),
            tasks.objects@ == Map::<usize, VschedTaskImpl>::empty(),
            tasks.frames@ == Map::<usize, UserTrapFrame>::empty(),
            registered(tasks.registry) == none_registered(),
            forall|i: int|
                0 <= i < SHARED_TASK_SLOT_COUNT ==> #[trigger] tasks.table.slots@[i]
                    == SharedTaskSlot::blank(SHARED_TASK_FREE, 0),
    {
        SchedTasks {
            table: SharedTaskTable::new(),
            registry: registry_new(),
            objects: BTreeMap::new(),
            frames: BTreeMap::new(),
        }
    }
}

/// The address of the object that a task ID or a direct pointer names. A task ID names one
/// while its handle is live and registered.
pub fn direct_task(tasks: &SchedTasks, task: usize) -> (addr: Option<usize>)
    ensures
        addr == tasks.resolve(task),
{
    if let Some(key) = decode_task(task) {
        if !tasks.table.is_live(key) {
            return None;
        }
        return registry_get(&tasks.registry, (key.slot(), key.generation()));
    }
    if task != 0 {
        Some(task)
    } else {
        None
    }
}

/// The object at an address that is one, and none at 0.
pub fn with_direct_task(tasks: &SchedTasks, raw: usize) -> (task: Option<&VschedTaskImpl>)
    requires
        raw != 0 ==> tasks.objects@.contains_key(raw),
    ensures
        task == (if raw != 0 {
            Some(&tasks.objects@[raw])
        } else {
            None
        }),
{
    broadcast use vstd::std_specs::btree::group_btree_axioms;

    if raw == 0 {
        return None;
    }
    tasks.objects.get(&raw)
}

/// The object that a shared handle names, if it is registered and live.
pub fn with_registered_user_task(tasks: &SchedTasks, key: UserTaskKey) -> (task: Option<
    &VschedTaskImpl,
>)
    requires
        tasks.kernel_wf(),
    ensures
        task == (if tasks.names_object(key) {
            Some(&tasks.objects@[tasks.object_of(key)])
        } else {
            None
        }),
{
    let found: Option<usize> = registry_get(&tasks.registry, (key.slot(), key.generation()));
    match found {
        None => None,
        Some(addr) => {
            assert(key_of(registry_key(key)) == key);
            if !tasks.table.is_live(key) {
                return None;
            }
            with_direct_task(tasks, addr)
        },
    }
}

/// The object that a task ID or a direct pointer names. A direct pointer is null, or the
/// address of an object.
pub fn with_vsched_task(tasks: &SchedTasks, raw: usize) -> (task: Option<&VschedTaskImpl>)
    requires
        tasks.kernel_wf(),
        tasks.resolve(raw) == Some(raw) ==> tasks.objects@.contains_key(raw),
    ensures
        task == (match tasks.resolve(raw) {
            Some(addr) => Some(&tasks.objects@[addr]),
            None => None,
        }),
{
    if let Some(key) = decode_task(raw) {
        assert(key_of(registry_key(key)) == key);
        return with_registered_user_task(tasks, key);
    }
    with_direct_task(tasks, raw)
}

/// The kernel task of a task ID or a direct pointer.
pub fn task_from_raw(tasks: &SchedTasks, task: usize) -> (r: Option<AxTask>)
    requires
        tasks.kernel_wf(),
        tasks.resolve(task) == Some(task) ==> tasks.objects@.contains_key(task),
    ensures
        r == (match tasks.resolve(task) {
            Some(addr) => Some(tasks.objects@[addr].task),
            None => None,
        }),
{
    match with_vsched_task(tasks, task) {
        Some(object) => Some(object.task),
        None => None,
    }
}

/// The kernel task of a shared handle.
pub fn task_for_user_key(tasks: &SchedTasks, key: UserTaskKey) -> (r: Option<AxTask>)
    requires
        tasks.kernel_wf(),
    ensures
        r == (if tasks.names_object(key) {
            Some(tasks.objects@[tasks.object_of(key)].task)
        } else {
            None
        }),
{
    match with_registered_user_task(tasks, key) {
        Some(object) => Some(object.task),
        None => None,
    }
}

/// What the frame of a task holds, if it has one. `task` is its task ID or its address, or 0.
pub fn read_frame(tasks: &SchedTasks, task: usize) -> (frame: Option<UserTrapFrame>)
    requires
        tasks.kernel_wf(),
    ensures
        frame == (match tasks.resolve(task) {
            Some(addr) => tasks.frame_of(addr),
            None => None,
        }),
{
    broadcast use vstd::std_specs::btree::group_btree_axioms;

    match direct_task(tasks, task) {
        None => None,
        Some(addr) => match tasks.objects.get(&addr) {
            None => None,
            Some(object) => {
                if object.trap_frame == 0 {
                    return None;
                }
                Some(*tasks.frames.get(&object.trap_frame).unwrap())
            },
        },
    }
}

/// Where a new task object, its stack object and its frame are, and how a kernel thread
/// starts. A stack and a frame are looked at only for a task that gets one.
#[derive(Clone, Copy, Debug, Eq, PartialEq, Structural)]
pub struct TaskPlacement {
    pub addr: usize,
    pub stack: usize,
    pub frame: usize,
    pub start: KernelThreadStart,
}

/// The coroutine of a new task: that of a kernel task keeps its interrupt state.
pub open spec fn new_coroutine(is_kernel: bool, coroutine: Option<usize>) -> Option<Coroutine> {
    match coroutine {
        Some(inner) => Some(
            if is_kernel {
                Coroutine::Irq { wrapper: IrqCorotineWrapper { inner, irq_state: SIE } }
            } else {
                Coroutine::Plain { inner }
            },
        ),
        None => None,
    }
}

/// The frame from which a new task starts, if it has one: a kernel thread does, whose kernel
/// task has a stack.
pub open spec fn first_frame(
    place: TaskPlacement,
    is_kernel: bool,
    coroutine: Option<usize>,
) -> Option<UserTrapFrame> {
    if is_kernel && coroutine.is_none() {
        place.start.frame()
    } else {
        None
    }
}

/// What making a task with the given first frame does to the frames.
pub open spec fn made_with(task: usize, frame: Option<UserTrapFrame>) -> FrameCall {
    match frame {
        Some(frame) => FrameCall::Save { task, frame },
        None => FrameCall::Keep,
    }
}

/// A task as `register_task` makes it: a thread has a stack, and a kernel thread a frame
/// to start from.
pub open spec fn new_task(
    place: TaskPlacement,
    task: AxTask,
    priority: isize,
    pid: usize,
    is_kernel: bool,
    coroutine: Option<usize>,
    vdso_base: usize,
) -> VschedTaskImpl {
    VschedTaskImpl {
        user_vdso_base: vdso_base,
        thread_stack_ptr: if coroutine.is_none() {
            place.stack
        } else {
            0
        },
        trap_frame: if first_frame(place, is_kernel, coroutine) is Some {
            place.frame
        } else {
            0
        },
        ..VschedTaskImpl::fresh(
            task,
            priority,
            pid,
            is_kernel,
            new_coroutine(is_kernel, coroutine),
        )
    }
}

/// Makes a task object at an address where there is none, and returns the address.
pub fn register_task(
    tasks: &mut SchedTasks,
    place: TaskPlacement,
    task: AxTask,
    priority: isize,
    pid: usize,
    is_kernel: bool,
    coroutine: Option<usize>,
    vdso_base: usize,
) -> (addr: usize)
    requires
        old(tasks).kernel_wf(),
        place.addr != 0,
        place.addr % 2 == 0,
        !old(tasks).objects@.contains_key(place.addr),
        first_frame(place, is_kernel, coroutine) is Some ==> is_fresh(*old(tasks), place.frame),
    ensures
        addr == place.addr,
        final(tasks).objects@ == old(tasks).objects@.insert(
            addr,
            new_task(place, task, priority, pid, is_kernel, coroutine, vdso_base),
        ),
        final(tasks).frames@ == (match first_frame(place, is_kernel, coroutine) {
            Some(frame) => old(tasks).frames@.insert(place.frame, frame),
            None => old(tasks).frames@,
        }),
        is_frame_call(
            *old(tasks),
            *final(tasks),
            made_with(addr, first_frame(place, is_kernel, coroutine)),
        ),
        final(tasks).table == old(tasks).table,
        registered(final(tasks).registry) == registered(old(tasks).registry),
        final(tasks).kernel_wf(),
        old(tasks).in_step() ==> final(tasks).in_step(),
{
    broadcast use vstd::std_specs::btree::group_btree_axioms;

    let wrapped: Option<Coroutine> = match coroutine {
        Some(inner) => Some(
            if is_kernel {
                Coroutine::Irq { wrapper: IrqCorotineWrapper::new(inner) }
            } else {
                Coroutine::Plain { inner }
            },
        ),
        None => None,
    };
    let is_thread: bool = wrapped.is_none();
    let mut vti: VschedTaskImpl = VschedTaskImpl::new(task, priority, pid, is_kernel, wrapped);
    vti.user_vdso_base = vdso_base;
    if is_thread {
        vti.thread_stack_ptr = place.stack;
    }
    if is_kernel && is_thread {
        let first: Option<UserTrapFrame> = initial_kernel_thread_frame(
            place.start.stack_top,
            place.start.kernel_gp,
            place.start.entry,
        );
        if let Some(frame) = first {
            vti.trap_frame = place.frame;
            tasks.frames.insert(place.frame, frame);
        }
    }
    tasks.objects.insert(place.addr, vti);
    proof {
        match first_frame(place, is_kernel, coroutine) {
            Some(frame) => lemma_frame_saved(*old(tasks), *tasks, place.addr, vti, frame),
            None => lemma_frames_kept(*old(tasks), *tasks, place.addr, vti),
        }
    }
    place.addr
}

/// What a slot holds once a user task is registered in it.
pub open spec fn registered_slot(task: VschedTaskImpl, generation: usize, process_id: usize) -> SharedTaskSlot {
    SharedTaskSlot {
        context_kind: VschedTaskImpl::kind_of(task.is_coroutine),
        task_state: raw_state(vsched_state(task.task.state)),
        ..fresh_slot(generation, process_id, task.priority)
    }
}

/// Gives a user task a shared slot and registers its handle. User schedulers keep the
/// handle's task ID, never an address.
pub fn register_user_task(tasks: &mut SchedTasks, task: usize, process_id: VschedProcessId) -> (key:
    UserTaskKey)
    requires
        old(tasks).kernel_wf(),
        old(tasks).objects@.contains_key(task),
        is_user_raw(process_id@),
        !old(tasks).objects@[task].is_kernel,
        old(tasks).objects@[task].pid == process_id@,
        old(tasks).objects@[task].shared_task_key.is_none(),
        old(tasks).table.has_free_slot(),
        old(tasks).next_key_is_new(),
    ensures
        old(tasks).table.is_next(key),
        final(tasks).table.is_update(
            old(tasks).table,
            key,
            registered_slot(old(tasks).objects@[task], key.generation, process_id@),
        ),
        registered(final(tasks).registry) == registered(old(tasks).registry).insert(
            registry_key(key),
            task,
        ),
        final(tasks).objects@ == old(tasks).objects@.insert(
            task,
            (VschedTaskImpl { shared_task_key: Some(key), ..old(tasks).objects@[task] }),
        ),
        is_frame_call(*old(tasks), *final(tasks), FrameCall::Keep),
        final(tasks).kernel_wf(),
        old(tasks).in_step() ==> final(tasks).in_step(),
        final(tasks).table.live(key),
{
    broadcast use vstd::std_specs::btree::group_btree_axioms;

    let mut object: VschedTaskImpl = *tasks.objects.get(&task).unwrap();
    let key: UserTaskKey = tasks.table.allocate(process_id, object.priority).unwrap();
    let context_kind: usize = if object.is_coroutine {
        SHARED_CONTEXT_COROUTINE
    } else {
        SHARED_CONTEXT_THREAD
    };
    tasks.table.initialize_context_kind(key, context_kind);
    let initial_state: usize = state_to_raw(to_vsched_state(object.task.state));
    tasks.table.swap_task_state(key, initial_state);
    proof {
        assert(tasks.table.slots@ =~= old(tasks).table.slots@.update(
            key.slot as int,
            registered_slot(old(tasks).objects@[task], key.generation, process_id@),
        ));
        assert(!old(tasks).is_registered(key));
    }
    registry_insert(&mut tasks.registry, (key.slot(), key.generation()), task);
    object.install_shared_task_key(key);
    tasks.objects.insert(task, object);
    proof {
        assert(tasks.table.is_update(
            old(tasks).table,
            key,
            registered_slot(old(tasks).objects@[task], key.generation, process_id@),
        ));
        lemma_registered(*old(tasks), *tasks, task, key);
    }
    key
}

proof fn lemma_registered(before: SchedTasks, after: SchedTasks, task: usize, key: UserTaskKey)
    requires
        before.kernel_wf(),
        after.frames@ == before.frames@,
        before.objects@.contains_key(task),
        !before.objects@[task].is_kernel,
        before.objects@[task].shared_task_key.is_none(),
        key.encodable(),
        !before.is_registered(key),
        before.table.of(key).state == SHARED_TASK_FREE,
        before.table.wf() ==> after.table.wf(),
        after.table.live(key),
        exists|slot: SharedTaskSlot| after.table.is_update(before.table, key, slot),
        registered(after.registry) == registered(before.registry).insert(registry_key(key), task),
        after.objects@ == before.objects@.insert(
            task,
            (VschedTaskImpl { shared_task_key: Some(key), ..before.objects@[task] }),
        ),
    ensures
        after.kernel_wf(),
        before.in_step() ==> after.in_step(),
        is_frame_call(before, after, FrameCall::Keep),
{
    lemma_frames_kept(before, after, task, after.objects@[task]);
    assert(key_of(registry_key(key)) == key);
    assert forall|k: (usize, usize)|
        #[trigger] registered(after.registry).contains_key(k) implies {
        &&& key_of(k).encodable()
        &&& after.objects@.contains_key(registered(after.registry)[k])
        &&& after.objects@[registered(after.registry)[k]].shared_task_key == Some(key_of(k))
    } by {
        if k != registry_key(key) {
            assert(registered(before.registry).contains_key(k));
            assert(registered(before.registry)[k] != task);
        }
    }
    assert forall|addr: usize| #[trigger] after.objects@.contains_key(addr) implies {
        &&& addr != 0
        &&& addr % 2 == 0
        &&& after.objects@[addr].shared_task_key matches Some(other) ==> {
            &&& after.is_registered(other)
            &&& after.object_of(other) == addr
            &&& !after.objects@[addr].is_kernel
        }
    } by {
        assert(before.objects@.contains_key(addr));
        if addr != task {
            if let Some(other) = after.objects@[addr].shared_task_key {
                assert(before.is_registered(other));
                assert(other != key);
                assert(key_of(registry_key(other)) == other);
            }
        }
    }
    if before.in_step() {
        assert forall|k: (usize, usize)| #[trigger]
            registered(after.registry).contains_key(k) implies after.table.live(key_of(k)) by {
            if k != registry_key(key) {
                assert(registered(before.registry).contains_key(k));
                assert(before.table.live(key_of(k)));
                assert(key_of(k).slot != key.slot);
            }
        }
    }
}

/// Whether a user task can be registered now: a slot is free, and its next handle is not
/// registered.
pub fn can_register(tasks: &SchedTasks) -> (can: bool)
    ensures
        can == (tasks.table.has_free_slot() && tasks.next_key_is_new()),
{
    match tasks.table.next_key() {
        None => false,
        Some(key) => {
            let found: Option<usize> = registry_get(&tasks.registry, (key.slot(), key.generation()));
            proof {
                assert(tasks.table.is_next(key));
                assert forall|other: UserTaskKey|
                    tasks.table.is_next(other) implies other == key by {
                    if other.slot < key.slot {
                        assert(tasks.table.slots@[other.slot as int].state != SHARED_TASK_FREE);
                    } else if key.slot < other.slot {
                        assert(tasks.table.slots@[key.slot as int].state != SHARED_TASK_FREE);
                    }
                }
                assert(tasks.is_registered(key) == found.is_some());
            }
            found.is_none()
        },
    }
}

/// Takes a user task's handle away: its slot is free, its registration gone. A task
/// without a handle stays as it is.
pub fn unregister_user_task(tasks: &mut SchedTasks, task: usize)
    requires
        old(tasks).kernel_wf(),
        task != 0 ==> old(tasks).objects@.contains_key(task) && (
        old(tasks).objects@[task].shared_task_key matches Some(key) ==> old(tasks).table.live(key)),
    ensures
        is_frame_call(*old(tasks), *final(tasks), FrameCall::Keep),
        final(tasks).kernel_wf(),
        old(tasks).in_step() ==> final(tasks).in_step(),
        task == 0 || old(tasks).objects@[task].shared_task_key.is_none() ==> {
            &&& final(tasks).table.slots@ == old(tasks).table.slots@
            &&& final(tasks).objects@ == old(tasks).objects@
            &&& registered(final(tasks).registry) == registered(old(tasks).registry)
        },
        task != 0 ==> (old(tasks).objects@[task].shared_task_key matches Some(key)
            ==> unregistered(*old(tasks), *final(tasks), task, key)),
{
    broadcast use vstd::std_specs::btree::group_btree_axioms;

    if task == 0 {
        return ;
    }
    let mut object: VschedTaskImpl = *tasks.objects.get(&task).unwrap();
    let key: UserTaskKey = match object.take_shared_task_key() {
        Some(key) => key,
        None => {
            return ;
        },
    };
    assert(key_of(registry_key(key)) == key);
    registry_remove(&mut tasks.registry, (key.slot(), key.generation()));
    tasks.objects.insert(task, object);
    tasks.table.release(key);
    proof {
        lemma_unregistered(*old(tasks), *tasks, task, key);
    }
}

/// Whether `after` is `before` with the handle `key` of the object at `task` taken away.
pub open spec fn unregistered(before: SchedTasks, after: SchedTasks, task: usize, key: UserTaskKey) -> bool {
    &&& after.table.is_update(
        before.table,
        key,
        SharedTaskSlot::blank(SHARED_TASK_FREE, generation_after(key.generation)),
    )
    &&& registered(after.registry) == registered(before.registry).remove(registry_key(key))
    &&& after.objects@ == before.objects@.insert(
        task,
        VschedTaskImpl { shared_task_key: None, ..before.objects@[task] },
    )
    &&& after.frames@ == before.frames@
}

proof fn lemma_unregistered(before: SchedTasks, after: SchedTasks, task: usize, key: UserTaskKey)
    requires
        before.kernel_wf(),
        before.objects@.contains_key(task),
        before.objects@[task].shared_task_key == Some(key),
        before.table.live(key),
        before.table.wf() ==> after.table.wf(),
        unregistered(before, after, task, key),
    ensures
        after.kernel_wf(),
        before.in_step() ==> after.in_step(),
        is_frame_call(before, after, FrameCall::Keep),
{
    lemma_frames_kept(before, after, task, after.objects@[task]);
    assert(key_of(registry_key(key)) == key);
    assert forall|k: (usize, usize)|
        #[trigger] registered(after.registry).contains_key(k) implies {
        &&& key_of(k).encodable()
        &&& after.objects@.contains_key(registered(after.registry)[k])
        &&& after.objects@[registered(after.registry)[k]].shared_task_key == Some(key_of(k))
    } by {
        assert(registered(before.registry).contains_key(k));
        assert(k != registry_key(key));
    }
    assert forall|addr: usize| #[trigger] after.objects@.contains_key(addr) implies {
        &&& addr != 0
        &&& addr % 2 == 0
        &&& after.objects@[addr].shared_task_key matches Some(other) ==> {
            &&& after.is_registered(other)
            &&& after.object_of(other) == addr
            &&& !after.objects@[addr].is_kernel
        }
    } by {
        assert(before.objects@.contains_key(addr));
    }
    if before.in_step() {
        assert forall|k: (usize, usize)| #[trigger]
            registered(after.registry).contains_key(k) implies after.table.live(key_of(k)) by {
            assert(registered(before.registry).contains_key(k));
            assert(k != registry_key(key));
            assert(before.table.live(key_of(k)));
            assert(key_of(k).slot != key.slot);
        }
    }
}

/// Takes the object that a registered handle names out of the registry. The handle is void
/// from then on.
pub fn take_user_task(tasks: &mut SchedTasks, key: UserTaskKey) -> (task: Option<usize>)
    requires
        old(tasks).kernel_wf(),
        old(tasks).is_registered(key) ==> old(tasks).table.live(key),
    ensures
        is_frame_call(*old(tasks), *final(tasks), FrameCall::Keep),
        final(tasks).kernel_wf(),
        old(tasks).in_step() ==> final(tasks).in_step(),
        task == (if old(tasks).is_registered(key) {
            Some(old(tasks).object_of(key))
        } else {
            None
        }),
        task.is_none() ==> {
            &&& final(tasks).table.slots@ == old(tasks).table.slots@
            &&& final(tasks).objects@ == old(tasks).objects@
            &&& registered(final(tasks).registry) == registered(old(tasks).registry)
        },
        task matches Some(addr) ==> unregistered(*old(tasks), *final(tasks), addr, key),
{
    broadcast use vstd::std_specs::btree::group_btree_axioms;

    let found: Option<usize> = registry_get(&tasks.registry, (key.slot(), key.generation()));
    match found {
        None => None,
        Some(task) => {
            assert(key_of(registry_key(key)) == key);
            let mut object: VschedTaskImpl = *tasks.objects.get(&task).unwrap();
            object.take_shared_task_key();
            registry_remove(&mut tasks.registry, (key.slot(), key.generation()));
            tasks.objects.insert(task, object);
            tasks.table.release(key);
            proof {
                lemma_unregistered(*old(tasks), *tasks, task, key);
            }
            Some(task)
        },
    }
}

/// The task ID of a registered task names its object, as long as its slot is live.
pub proof fn law_registered_task_resolves(tasks: SchedTasks, task: usize, id: usize)
    requires
        tasks.kernel_wf(),
        tasks.objects@.contains_key(task),
        tasks.objects@[task].shared_task_key matches Some(key) && id == task_id(key)
            && tasks.table.live(key),
    ensures
        tasks.resolve(id) == Some(task),
{
    let key = tasks.objects@[task].shared_task_key.unwrap();
    assert(tasks.is_registered(key) && tasks.object_of(key) == task);
    assert(key_of(registry_key(key)) == key);
    law_decode_undoes_encode(key, id);
}

/// Whether two tables differ at most in what a slot shows of its task: its process, its
/// scheduling state, its priority, its context and stack, their owners, and its CPU. Every
/// slot is used for the same, in the same generation.
pub open spec fn same_lifecycles(a: SharedTaskTable, b: SharedTaskTable) -> bool {
    forall|i: int|
        0 <= i < SHARED_TASK_SLOT_COUNT ==> {
            &&& (#[trigger] a.slots@[i]).state == b.slots@[i].state
            &&& a.slots@[i].generation == b.slots@[i].generation
        }
}

/// Whatever user space writes to what a slot shows of its task, every handle and every task ID
/// names the object that it named before, and that object is the same: what the kernel has of
/// its tasks does not hang on it.
pub proof fn law_user_writes_change_no_identity(
    before: SchedTasks,
    after: SchedTasks,
    key: UserTaskKey,
    raw: usize,
)
    requires
        before.kernel_wf(),
        same_lifecycles(before.table, after.table),
        registered(after.registry) == registered(before.registry),
        after.objects@ == before.objects@,
        after.frames@ == before.frames@,
    ensures
        after.kernel_wf(),
        after.names_object(key) == before.names_object(key),
        after.object_of(key) == before.object_of(key),
        after.resolve(raw) == before.resolve(raw),
{
    assert forall|f: usize| #[trigger] after.frames@.contains_key(f) implies exists|a: usize|
        after.has_frame(a, f) by {
        let a = choose|a: usize| before.has_frame(a, f);
        assert(after.has_frame(a, f));
    }
    assert forall|k: UserTaskKey| after.table.live(k) == before.table.live(k) by {
        if k.slot < SHARED_TASK_SLOT_COUNT {
            let slot = before.table.slots@[k.slot as int];
            assert(slot.state == after.table.slots@[k.slot as int].state);
        }
    }
}

/// A table that is as the kernel left it gives out no handle that is registered already.
pub proof fn law_next_handle_is_new(tasks: SchedTasks)
    requires
        tasks.in_step(),
    ensures
        tasks.next_key_is_new(),
{
    assert forall|key: UserTaskKey| tasks.table.is_next(key) implies !#[trigger] tasks.is_registered(
        key,
    ) by {
        assert(key_of(registry_key(key)) == key);
        if tasks.is_registered(key) {
            assert(tasks.table.live(key_of(registry_key(key))));
        }
    }
}

/// The task ID of a task that was unregistered names nothing, while every other registered
/// task keeps the object that its ID names.
pub proof fn law_unregistered_task_is_gone(
    before: SchedTasks,
    after: SchedTasks,
    task: usize,
    key: UserTaskKey,
    other: UserTaskKey,
)
    requires
        before.kernel_wf(),
        before.objects@.contains_key(task),
        before.objects@[task].shared_task_key == Some(key),
        before.table.live(key),
        unregistered(before, after, task, key),
        before.is_registered(other),
        other != key,
    ensures
        !after.names_object(key),
        task_id(key) <= usize::MAX,
        after.resolve(task_id(key) as usize) is None,
        task_id(other) <= usize::MAX,
        after.resolve(task_id(other) as usize) == before.resolve(task_id(other) as usize),
{
    assert(before.is_registered(key));
    assert(key_of(registry_key(key)) == key);
    assert(key_of(registry_key(other)) == other);
    law_decode_undoes_encode(key, task_id(key) as usize);
    law_decode_undoes_encode(other, task_id(other) as usize);
    assert(registry_key(other) != registry_key(key));
}

/// A direct pointer to a task object names that object, and no task ID can be taken for one.
pub proof fn law_pointers_and_ids_are_apart(tasks: SchedTasks, addr: usize, key: UserTaskKey)
    requires
        tasks.kernel_wf(),
        tasks.objects@.contains_key(addr),
    ensures
        tasks.resolve(addr) == Some(addr),
        task_id(key) != addr,
{
}

} // verus!
