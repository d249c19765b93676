//! Tasks as the external scheduler calls them: by task ID or by direct pointer.

use vstd::prelude::*;

use crate::abi::process::is_user_raw;
use crate::abi::slot::{SharedTaskSlot, SHARED_CONTEXT_COROUTINE, SHARED_TASK_FREE};
use crate::abi::table::{generation_after, SharedTaskTable};
use crate::abi::task::{decode_task, task_of_id, UserTaskKey};
use crate::sched::frames::{
    is_frame_call, lemma_frame_removed, lemma_frames_kept, FrameCall,
};
use crate::sched::registry::{
    direct_task, key_of, registered, registry_key, take_user_task, unregister_user_task,
    unregistered, with_vsched_task, SchedTasks,
};
use crate::sched::task::{slot_current, Coroutine, EnterContext, RestoreContext, VschedTaskImpl};
use crate::state::{raw_state, state_after_match, vsched_state, TaskState};

verus! {

/// A task as the scheduler names it: by a task ID or by the address of its object.
#[derive(Clone, Copy, Debug, Eq, PartialEq, Structural)]
pub struct TaskImpl {
    pub raw: usize,
}

/// What is left to free of a task: its frame and its stack object, where they are not 0,
/// and the scheduler's entry of its process.
#[derive(Clone, Copy, Debug, Eq, PartialEq, Structural)]
pub struct Deallocated {
    pub trap_frame: usize,
    pub thread_stack: usize,
    pub process_drop: Option<usize>,
}

/// Whether `after` has the registry and the frames of `before`, and its objects but for
/// another one at `addr`.
pub open spec fn object_changed(
    before: SchedTasks,
    after: SchedTasks,
    addr: usize,
    object: VschedTaskImpl,
) -> bool {
    &&& registered(after.registry) == registered(before.registry)
    &&& after.objects@ == before.objects@.insert(addr, object)
    &&& after.frames@ == before.frames@
}

pub(crate) proof fn lemma_object_changed(
    before: SchedTasks,
    after: SchedTasks,
    addr: usize,
    object: VschedTaskImpl,
)
    requires
        before.kernel_wf(),
        before.objects@.contains_key(addr),
        object_changed(before, after, addr, object),
        object.shared_task_key == before.objects@[addr].shared_task_key,
        object.is_kernel == before.objects@[addr].is_kernel,
        object.trap_frame == before.objects@[addr].trap_frame,
        before.table.wf() ==> after.table.wf(),
        forall|key: UserTaskKey| #[trigger] before.table.live(key) ==> after.table.live(key),
    ensures
        after.kernel_wf(),
        before.in_step() ==> after.in_step(),
        is_frame_call(before, after, FrameCall::Keep),
{
    lemma_frames_kept(before, after, addr, object);
    lemma_registry_kept(before, after, addr, object);
}

/// Another object at an address that has one, with the same handle and on the same side,
/// leaves the registry in agreement with the objects.
pub(crate) proof fn lemma_registry_kept(
    before: SchedTasks,
    after: SchedTasks,
    addr: usize,
    object: VschedTaskImpl,
)
    requires
        before.kernel_wf(),
        before.objects@.contains_key(addr),
        registered(after.registry) == registered(before.registry),
        after.objects@ == before.objects@.insert(addr, object),
        object.shared_task_key == before.objects@[addr].shared_task_key,
        object.is_kernel == before.objects@[addr].is_kernel,
        after.frames_wf(),
        before.table.wf() ==> after.table.wf(),
        forall|key: UserTaskKey| #[trigger] before.table.live(key) ==> after.table.live(key),
    ensures
        after.kernel_wf(),
        before.in_step() ==> after.in_step(),
{
    assert forall|k: (usize, usize)|
        #[trigger] registered(after.registry).contains_key(k) implies {
        &&& key_of(k).encodable()
        &&& after.objects@.contains_key(registered(after.registry)[k])
        &&& after.objects@[registered(after.registry)[k]].shared_task_key == Some(key_of(k))
        &&& before.in_step() ==> after.table.live(key_of(k))
    } by {
        assert(registered(before.registry).contains_key(k));
        if before.in_step() {
            assert(before.table.live(key_of(k)));
        }
    }
    assert forall|a: usize| #[trigger] after.objects@.contains_key(a) implies {
        &&& a != 0
        &&& a % 2 == 0
        &&& after.objects@[a].shared_task_key matches Some(key) ==> {
            &&& after.is_registered(key)
            &&& after.object_of(key) == a
            &&& !after.objects@[a].is_kernel
        }
    } by {
        assert(before.objects@.contains_key(a));
    }
}

pub(crate) proof fn lemma_live_after_update(
    before: SharedTaskTable,
    after: SharedTaskTable,
    key: UserTaskKey,
    slot: SharedTaskSlot,
)
    requires
        before.live(key),
        after.is_update(before, key, slot),
        slot.state == before.of(key).state,
        slot.generation == before.of(key).generation,
    ensures
        forall|k: UserTaskKey| #[trigger] before.live(k) ==> after.live(k),
{
}

impl TaskImpl {
    /// Whether the name stands for a task object.
    pub open spec fn valid(self, tasks: SchedTasks) -> bool {
        tasks.resolve(self.raw) matches Some(addr) && tasks.objects@.contains_key(addr)
    }

    /// The address of the task object.
    pub open spec fn addr(self, tasks: SchedTasks) -> usize {
        tasks.resolve(self.raw).unwrap()
    }

    /// The task object.
    pub open spec fn object(self, tasks: SchedTasks) -> VschedTaskImpl {
        tasks.objects@[self.addr(tasks)]
    }

    fn task<'a>(&self, tasks: &'a SchedTasks) -> (task: &'a VschedTaskImpl)
        requires
            tasks.kernel_wf(),
            self.valid(*tasks),
        ensures
            *task == self.object(*tasks),
    {
        with_vsched_task(tasks, self.raw).unwrap()
    }

    fn direct(&self, tasks: &SchedTasks) -> (addr: usize)
        requires
            self.valid(*tasks),
        ensures
            addr == self.addr(*tasks),
    {
        direct_task(tasks, self.raw).unwrap()
    }

    /// The task's scheduling state.
    pub fn state(&self, tasks: &SchedTasks) -> (state: TaskState)
        requires
            tasks.kernel_wf(),
            self.valid(*tasks),
            slot_current(self.object(*tasks), tasks.table),
        ensures
            state == self.object(*tasks).current_state(tasks.table),
    {
        self.task(tasks).state(&tasks.table)
    }

    /// Sets the scheduling state and returns the one before.
    pub fn set_state(&self, tasks: &mut SchedTasks, state: TaskState) -> (previous: TaskState)
        requires
            old(tasks).kernel_wf(),
            self.valid(*old(tasks)),
            slot_current(self.object(*old(tasks)), old(tasks).table),
        ensures
            previous == self.object(*old(tasks)).current_state(old(tasks).table),
            object_changed(
                *old(tasks),
                *final(tasks),
                self.addr(*old(tasks)),
                self.object(*old(tasks)).with_state(state),
            ),
            self.object(*old(tasks)).slot_moved(old(tasks).table, final(tasks).table, state),
            is_frame_call(*old(tasks), *final(tasks), FrameCall::Keep),
            final(tasks).kernel_wf(),
            old(tasks).in_step() ==> final(tasks).in_step(),
    {
        broadcast use vstd::std_specs::btree::group_btree_axioms;

        let addr: usize = self.direct(tasks);
        let mut object: VschedTaskImpl = *self.task(tasks);
        let previous: TaskState = object.set_state(&mut tasks.table, state);
        tasks.objects.insert(addr, object);
        proof {
            lemma_moved(*old(tasks), *tasks, addr, object, state);
        }
        previous
    }

    /// Moves the task to the state that is given for its present one, and returns the
    /// present one.
    pub fn match_set_state(
        &self,
        tasks: &mut SchedTasks,
        state_from_ready: TaskState,
        state_from_running: TaskState,
        state_from_blocked: TaskState,
        state_from_exited: TaskState,
        state_from_blocking: TaskState,
    ) -> (previous: TaskState)
        requires
            old(tasks).kernel_wf(),
            self.valid(*old(tasks)),
            slot_current(self.object(*old(tasks)), old(tasks).table),
        ensures
            previous == self.object(*old(tasks)).current_state(old(tasks).table),
            ({
                let next = state_after_match(
                    previous,
                    state_from_ready,
                    state_from_running,
                    state_from_blocked,
                    state_from_exited,
                    state_from_blocking,
                );
                &&& object_changed(
                    *old(tasks),
                    *final(tasks),
                    self.addr(*old(tasks)),
                    self.object(*old(tasks)).with_state(next),
                )
                &&& self.object(*old(tasks)).slot_moved(old(tasks).table, final(tasks).table, next)
            }),
            is_frame_call(*old(tasks), *final(tasks), FrameCall::Keep),
            final(tasks).kernel_wf(),
            old(tasks).in_step() ==> final(tasks).in_step(),
    {
        broadcast use vstd::std_specs::btree::group_btree_axioms;

        let addr: usize = self.direct(tasks);
        let mut object: VschedTaskImpl = *self.task(tasks);
        let previous: TaskState = object.match_set_state(
            &mut tasks.table,
            state_from_ready,
            state_from_running,
            state_from_blocked,
            state_from_exited,
            state_from_blocking,
        );
        tasks.objects.insert(addr, object);
        proof {
            let next = state_after_match(
                previous,
                state_from_ready,
                state_from_running,
                state_from_blocked,
                state_from_exited,
                state_from_blocking,
            );
            lemma_moved(*old(tasks), *tasks, addr, object, next);
        }
        previous
    }

    /// The task's priority.
    pub fn priority(&self, tasks: &SchedTasks) -> (priority: isize)
        requires
            tasks.kernel_wf(),
            self.valid(*tasks),
        ensures
            priority == (match self.object(*tasks).shared_task_key {
                Some(key) => if tasks.table.live(key) {
                    tasks.table.of(key).priority
                } else {
                    self.object(*tasks).priority
                },
                None => self.object(*tasks).priority,
            }),
    {
        self.task(tasks).priority(&tasks.table)
    }

    /// Whether the task is a coroutine.
    pub fn is_coroutine(&self, tasks: &SchedTasks) -> (b: bool)
        requires
            tasks.kernel_wf(),
            self.valid(*tasks),
        ensures
            b == (match self.object(*tasks).shared_task_key {
                Some(key) => if tasks.table.live(key) {
                    tasks.table.of(key).context_kind == SHARED_CONTEXT_COROUTINE
                } else {
                    self.object(*tasks).is_coroutine
                },
                None => self.object(*tasks).is_coroutine,
            }),
    {
        self.task(tasks).is_coroutine(&tasks.table)
    }

    /// Whether the task runs in the kernel.
    pub fn is_kernel(&self, tasks: &SchedTasks) -> (b: bool)
        requires
            tasks.kernel_wf(),
            self.valid(*tasks),
        ensures
            b == self.object(*tasks).is_kernel,
    {
        self.task(tasks).is_kernel()
    }

    /// The process in whose address space the task runs.
    pub fn pid(&self, tasks: &SchedTasks) -> (pid: usize)
        requires
            tasks.kernel_wf(),
            self.valid(*tasks),
        ensures
            pid == (match self.object(*tasks).shared_task_key {
                Some(key) => if tasks.table.live(key) && is_user_raw(
                    tasks.table.of(key).process_id,
                ) {
                    tasks.table.of(key).process_id
                } else {
                    self.object(*tasks).pid
                },
                None => self.object(*tasks).pid,
            }),
    {
        self.task(tasks).pid(&tasks.table)
    }

    /// Moves the task to another process.
    pub fn set_pid(&self, tasks: &mut SchedTasks, pid: usize)
        requires
            old(tasks).kernel_wf(),
            self.valid(*old(tasks)),
            self.object(*old(tasks)).shared_task_key matches Some(key) ==> old(tasks).table.live(
                key,
            ) && is_user_raw(pid),
        ensures
            object_changed(
                *old(tasks),
                *final(tasks),
                self.addr(*old(tasks)),
                (VschedTaskImpl { pid, ..self.object(*old(tasks)) }),
            ),
            self.object(*old(tasks)).shared_task_key.is_none() ==> final(tasks).table.slots@ == old(tasks).table.slots@,
            self.object(*old(tasks)).shared_task_key matches Some(key) ==> final(tasks).table.is_update(
                old(tasks).table,
                key,
                (SharedTaskSlot { process_id: pid, ..old(tasks).table.of(key) }),
            ),
            is_frame_call(*old(tasks), *final(tasks), FrameCall::Keep),
            final(tasks).kernel_wf(),
            old(tasks).in_step() ==> final(tasks).in_step(),
    {
        broadcast use vstd::std_specs::btree::group_btree_axioms;

        let addr: usize = self.direct(tasks);
        let mut object: VschedTaskImpl = *self.task(tasks);
        object.set_pid(&mut tasks.table, pid);
        tasks.objects.insert(addr, object);
        proof {
            if let Some(key) = object.shared_task_key {
                lemma_live_after_update(
                    old(tasks).table,
                    tasks.table,
                    key,
                    SharedTaskSlot { process_id: pid, ..old(tasks).table.of(key) },
                );
            } else {
                lemma_same_slots(old(tasks).table, tasks.table);
            }
            lemma_object_changed(*old(tasks), *tasks, addr, object);
        }
    }

    /// Restores the task's registers from its frame.
    pub fn restore_context(&self, tasks: &mut SchedTasks) -> (restore: RestoreContext)
        requires
            old(tasks).kernel_wf(),
            self.valid(*old(tasks)),
            self.object(*old(tasks)).trap_frame != 0,
            self.object(*old(tasks)).resume_to_coroutine ==> !self.object(
                *old(tasks),
            ).is_coroutine && (self.object(*old(tasks)).shared_task_key matches Some(key) ==> old(tasks).table.live(key)),
        ensures
            Some(restore.frame) == old(tasks).frame_of(self.addr(*old(tasks))),
            restore.sret == self.object(*old(tasks)).resume_to_coroutine,
            restore.enter == (EnterContext {
                task: self.object(*old(tasks)).identity(),
                install_current: self.object(*old(tasks)).is_kernel,
            }),
            object_changed(
                *old(tasks),
                *final(tasks),
                self.addr(*old(tasks)),
                (if restore.sret {
                    (VschedTaskImpl {
                        resume_to_coroutine: false,
                        thread_stack_ptr: 0,
                        is_coroutine: true,
                        ..self.object(*old(tasks))
                    })
                } else {
                    self.object(*old(tasks))
                }),
            ),
            !restore.sret || self.object(*old(tasks)).shared_task_key is None ==> final(tasks).table.slots@ == old(tasks).table.slots@,
            restore.sret ==> (self.object(*old(tasks)).shared_task_key matches Some(key) ==> final(tasks).table.is_update(
                old(tasks).table,
                key,
                (SharedTaskSlot {
                    context_kind: SHARED_CONTEXT_COROUTINE,
                    ..old(tasks).table.of(key)
                }),
            )),
            is_frame_call(*old(tasks), *final(tasks), FrameCall::Keep),
            final(tasks).kernel_wf(),
            old(tasks).in_step() ==> final(tasks).in_step(),
    {
        broadcast use vstd::std_specs::btree::group_btree_axioms;

        let addr: usize = self.direct(tasks);
        let mut object: VschedTaskImpl = *self.task(tasks);
        let restore: RestoreContext = object.restore_context(&mut tasks.table, &tasks.frames);
        tasks.objects.insert(addr, object);
        proof {
            if object.shared_task_key.is_some() && restore.sret {
                let key = object.shared_task_key.unwrap();
                lemma_live_after_update(
                    old(tasks).table,
                    tasks.table,
                    key,
                    SharedTaskSlot {
                        context_kind: SHARED_CONTEXT_COROUTINE,
                        ..old(tasks).table.of(key)
                    },
                );
            } else {
                lemma_same_slots(old(tasks).table, tasks.table);
            }
            lemma_object_changed(*old(tasks), *tasks, addr, object);
        }
        restore
    }

    /// Begins to poll the task's coroutine.
    pub fn begin_poll(&self, tasks: &SchedTasks) -> (poll: (Coroutine, EnterContext))
        requires
            tasks.kernel_wf(),
            self.valid(*tasks),
            self.object(*tasks).coroutine.is_some(),
        ensures
            poll.0 == self.object(*tasks).coroutine.unwrap(),
            poll.1 == (EnterContext {
                task: self.object(*tasks).identity(),
                install_current: self.object(*tasks).is_kernel,
            }),
    {
        self.task(tasks).begin_poll()
    }

    /// The task's stack object, or 0.
    pub fn thread_stack(&self, tasks: &SchedTasks) -> (stack: usize)
        requires
            tasks.kernel_wf(),
            self.valid(*tasks),
        ensures
            stack == self.object(*tasks).thread_stack_ptr,
    {
        self.task(tasks).thread_stack()
    }

    /// Keeps the value that the task returned.
    pub fn set_return_value(&self, tasks: &mut SchedTasks, value: isize)
        requires
            old(tasks).kernel_wf(),
            self.valid(*old(tasks)),
        ensures
            object_changed(
                *old(tasks),
                *final(tasks),
                self.addr(*old(tasks)),
                (VschedTaskImpl { return_value: value, ..self.object(*old(tasks)) }),
            ),
            final(tasks).table == old(tasks).table,
            is_frame_call(*old(tasks), *final(tasks), FrameCall::Keep),
            final(tasks).kernel_wf(),
            old(tasks).in_step() ==> final(tasks).in_step(),
    {
        broadcast use vstd::std_specs::btree::group_btree_axioms;

        let addr: usize = self.direct(tasks);
        let mut object: VschedTaskImpl = *self.task(tasks);
        object.set_return_value(value);
        tasks.objects.insert(addr, object);
        proof {
            lemma_object_changed(*old(tasks), *tasks, addr, object);
        }
    }

    /// Frees the task. Its handle, if it has one, is void before the object goes, so old
    /// wakers and handles find nothing.
    ///
    /// `last_of_process` is the scheduler's process ID of the task's process, if the task
    /// was the last of its threads.
    pub fn dealloc(&self, tasks: &mut SchedTasks, last_of_process: Option<usize>) -> (freed:
        Deallocated)
        requires
            old(tasks).kernel_wf(),
            self.valid(*old(tasks)),
            can_dealloc(self.object(*old(tasks))),
            self.object(*old(tasks)).shared_task_key matches Some(key) ==> old(tasks).table.live(
                key,
            ),
        ensures
            freed == freed_of(self.object(*old(tasks)), last_of_process),
            deallocated(*old(tasks), *final(tasks), self.addr(*old(tasks))),
            is_frame_call(*old(tasks), *final(tasks), FrameCall::Remove { task: self.addr(*old(tasks)) }),
            final(tasks).kernel_wf(),
            old(tasks).in_step() ==> final(tasks).in_step(),
    {
        if let Some(key) = decode_task(self.raw) {
            assert(key == task_of_id(self.raw));
            let addr: usize = take_user_task(tasks, key).unwrap();
            proof {
                assert(key_of(registry_key(key)) == key);
                assert(old(tasks).objects@[addr].shared_task_key == Some(key));
            }
            let freed: Deallocated = dealloc_task(tasks, addr, false, last_of_process);
            assert(tasks.objects@ =~= old(tasks).objects@.remove(addr));
            freed
        } else {
            dealloc_task(tasks, self.raw, true, last_of_process)
        }
    }
}

/// Whether a task can be freed: it has exited, handles no trap, and is not what a CPU's
/// scheduler waits in.
pub open spec fn can_dealloc(object: VschedTaskImpl) -> bool {
    &&& !object.is_scheduler_wait_context
    &&& vsched_state(object.task.state) == TaskState::Exited
    &&& object.execution_task.is_none()
    &&& object.trap_owner == 0
}

/// What is left to free of a task. A process is the scheduler's until its last user task
/// is gone.
pub open spec fn freed_of(object: VschedTaskImpl, last_of_process: Option<usize>) -> Deallocated {
    Deallocated {
        trap_frame: object.trap_frame,
        thread_stack: object.thread_stack_ptr,
        process_drop: if object.is_kernel {
            None
        } else {
            last_of_process
        },
    }
}

/// Whether `after` is `before` without the object at `addr`, its frame and its handle.
pub open spec fn deallocated(before: SchedTasks, after: SchedTasks, addr: usize) -> bool {
    &&& after.objects@ == before.objects@.remove(addr)
    &&& after.frames@ == before.frames@.remove(before.objects@[addr].trap_frame)
    &&& match before.objects@[addr].shared_task_key {
        Some(key) => {
            &&& registered(after.registry) == registered(before.registry).remove(registry_key(key))
            &&& after.table.is_update(
                before.table,
                key,
                SharedTaskSlot::blank(SHARED_TASK_FREE, generation_after(key.generation)),
            )
        },
        None => {
            &&& registered(after.registry) == registered(before.registry)
            &&& after.table.slots@ == before.table.slots@
        },
    }
}

/// Frees the task object at `addr`. `unregister` says whether its handle is still to be
/// taken away.
pub fn dealloc_task(
    tasks: &mut SchedTasks,
    addr: usize,
    unregister: bool,
    last_of_process: Option<usize>,
) -> (freed: Deallocated)
    requires
        old(tasks).kernel_wf(),
        old(tasks).objects@.contains_key(addr),
        can_dealloc(old(tasks).objects@[addr]),
        !unregister ==> old(tasks).objects@[addr].shared_task_key.is_none(),
        old(tasks).objects@[addr].shared_task_key matches Some(key) ==> old(tasks).table.live(key),
    ensures
        freed == freed_of(old(tasks).objects@[addr], last_of_process),
        deallocated(*old(tasks), *final(tasks), addr),
        is_frame_call(*old(tasks), *final(tasks), FrameCall::Remove { task: addr }),
        final(tasks).kernel_wf(),
        old(tasks).in_step() ==> final(tasks).in_step(),
{
    broadcast use vstd::std_specs::btree::group_btree_axioms;

    if unregister {
        unregister_user_task(tasks, addr);
    }
    proof {
        if let Some(key) = old(tasks).objects@[addr].shared_task_key {
            assert(key_of(registry_key(key)) == key);
            assert(unregistered(*old(tasks), *tasks, addr, key));
        }
    }
    let object: VschedTaskImpl = tasks.objects.remove(&addr).unwrap();
    tasks.frames.remove(&object.trap_frame);
    proof {
        assert(tasks.objects@ =~= old(tasks).objects@.remove(addr));
        lemma_removed(*old(tasks), *tasks, addr);
    }
    let process_drop: Option<usize> = if !object.is_kernel {
        last_of_process
    } else {
        None
    };
    Deallocated {
        trap_frame: object.trap_frame,
        thread_stack: object.thread_stack_ptr,
        process_drop,
    }
}

pub(crate) proof fn lemma_removed(before: SchedTasks, after: SchedTasks, addr: usize)
    requires
        before.kernel_wf(),
        before.table.wf() ==> after.table.wf(),
        before.objects@.contains_key(addr),
        before.objects@[addr].shared_task_key matches Some(key) ==> before.table.live(key),
        deallocated(before, after, addr),
    ensures
        after.kernel_wf(),
        before.in_step() ==> after.in_step(),
        is_frame_call(before, after, FrameCall::Remove { task: addr }),
{
    lemma_frame_removed(before, after, addr);
    assert forall|k: (usize, usize)|
        #[trigger] registered(after.registry).contains_key(k) implies {
        &&& key_of(k).encodable()
        &&& after.objects@.contains_key(registered(after.registry)[k])
        &&& after.objects@[registered(after.registry)[k]].shared_task_key == Some(key_of(k))
        &&& before.in_step() ==> after.table.live(key_of(k))
    } by {
        assert(registered(before.registry).contains_key(k));
        if before.in_step() {
            assert(before.table.live(key_of(k)));
        }
        if let Some(key) = before.objects@[addr].shared_task_key {
            assert(before.is_registered(key));
            assert(key_of(registry_key(key)) == key);
            assert(k != registry_key(key));
            if before.in_step() {
                assert(key_of(k).slot != key.slot);
            }
        }
    }
    assert forall|a: usize| #[trigger] after.objects@.contains_key(a) implies {
        &&& a != 0
        &&& a % 2 == 0
        &&& after.objects@[a].shared_task_key matches Some(key) ==> {
            &&& after.is_registered(key)
            &&& after.object_of(key) == a
            &&& !after.objects@[a].is_kernel
        }
    } by {
        assert(before.objects@.contains_key(a));
    }
}

pub(crate) proof fn lemma_same_slots(before: SharedTaskTable, after: SharedTaskTable)
    requires
        after.slots@ == before.slots@,
    ensures
        forall|k: UserTaskKey| #[trigger] before.live(k) ==> after.live(k),
{
}

pub(crate) proof fn lemma_moved(
    before: SchedTasks,
    after: SchedTasks,
    addr: usize,
    object: VschedTaskImpl,
    state: TaskState,
)
    requires
        before.kernel_wf(),
        before.objects@.contains_key(addr),
        slot_current(before.objects@[addr], before.table),
        object_changed(before, after, addr, object),
        object == before.objects@[addr].with_state(state),
        before.objects@[addr].slot_moved(before.table, after.table, state),
        before.table.wf() ==> after.table.wf(),
    ensures
        after.kernel_wf(),
        before.in_step() ==> after.in_step(),
        is_frame_call(before, after, FrameCall::Keep),
{
    if let Some(key) = object.shared_task_key {
        lemma_live_after_update(
            before.table,
            after.table,
            key,
            SharedTaskSlot { task_state: raw_state(state), ..before.table.of(key) },
        );
    } else {
        lemma_same_slots(before.table, after.table);
    }
    lemma_object_changed(before, after, addr, object);
}

} // verus!
