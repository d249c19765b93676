//! Process IDs, task IDs, and the table of shared task slots.

use vsched::abi::process::{
    VschedProcessId, VSCHED_INVALID_PROCESS_ID, VSCHED_KERNEL_PROCESS_ID,
};
use vsched::abi::slot::{
    SharedTaskSlot, SHARED_CONTEXT_COROUTINE, SHARED_CONTEXT_NONE, SHARED_CONTEXT_THREAD,
    SHARED_CONTEXT_TRAP, SHARED_OWNER_NONE, SHARED_TASK_BLOCKED, SHARED_TASK_BLOCKING,
    SHARED_TASK_EXITED, SHARED_TASK_FREE, SHARED_TASK_LIVE, SHARED_TASK_READY,
    SHARED_TASK_RUNNING,
};
use vsched::abi::table::SharedTaskTable;
use vsched::abi::task::{
    decode_task, encode_task, UserTaskKey, SHARED_TASK_SLOT_COUNT, USER_TASK_ID_MAX_GENERATION,
};

fn process(raw: usize) -> VschedProcessId {
    VschedProcessId::from_user_raw(raw).unwrap()
}

#[test]
fn process_id_rejects_reserved_values() {
    assert!(VschedProcessId::from_user_raw(VSCHED_KERNEL_PROCESS_ID).is_none());
    assert!(VschedProcessId::from_user_raw(VSCHED_INVALID_PROCESS_ID).is_none());

    let id = VschedProcessId::from_user_raw(1).expect("用户进程槽 1 应当有效");
    assert_eq!(id.as_raw(), 1);
    assert!(id.is_user());
}

#[test]
fn shared_task_generation_invalidates_stale_key() {
    let mut table = SharedTaskTable::new();
    let process = VschedProcessId::from_user_raw(1).unwrap();
    let old = table.allocate(process, 3).unwrap();
    assert!(table.is_live(old));
    assert_eq!(table.process_id(old), Some(process));
    assert!(table.release(old));
    assert!(!table.is_live(old));

    let new = table.allocate(process, 4).unwrap();
    assert_eq!(new.slot(), old.slot());
    assert_ne!(new.generation(), old.generation());
    assert!(!table.release(old));
    assert!(table.is_live(new));
}

#[test]
fn shared_task_state_and_ownership_are_generation_checked() {
    let mut table = SharedTaskTable::new();
    let process = VschedProcessId::from_user_raw(1).unwrap();
    let key = table.allocate(process, 3).unwrap();

    assert!(table.initialize_context_kind(key, SHARED_CONTEXT_COROUTINE));
    assert!(!table.initialize_context_kind(key, SHARED_CONTEXT_THREAD));
    assert!(table.compare_exchange_task_state(key, SHARED_TASK_READY, SHARED_TASK_RUNNING));
    assert!(!table.compare_exchange_task_state(key, SHARED_TASK_READY, SHARED_TASK_BLOCKED));

    let context_owner = 7;
    let other_owner = 8;
    assert!(table.try_claim_context(key, context_owner));
    assert!(!table.try_claim_context(key, other_owner));
    assert!(!table.publish_context_owned(
        key,
        other_owner,
        SHARED_CONTEXT_THREAD,
        0x1000,
        0x2000,
        0x3000,
        2,
    ));
    assert!(table.publish_context_owned(
        key,
        context_owner,
        SHARED_CONTEXT_THREAD,
        0x1000,
        0x2000,
        0x3000,
        2,
    ));
    let slot = &table.slots[key.slot()];
    assert_eq!(slot.context_kind, SHARED_CONTEXT_THREAD);
    assert_eq!(slot.stack_base, 0x1000);
    assert_eq!(slot.stack_size, 0x2000);
    assert_eq!(slot.context, 0x3000);
    assert_eq!(slot.wake_cpu, 2);
    assert!(!table.release_context(key, other_owner));
    assert!(table.release_context(key, context_owner));

    assert!(table.try_claim_queue(key, context_owner));
    assert!(!table.try_claim_queue(key, other_owner));
    assert!(!table.release_queue(key, other_owner));
    assert!(table.release_queue(key, context_owner));

    assert!(table.release(key));
    assert!(!table.compare_exchange_task_state(key, SHARED_TASK_RUNNING, SHARED_TASK_READY));
    assert!(!table.try_claim_context(key, context_owner));
    assert!(!table.try_claim_queue(key, context_owner));
}

#[test]
fn task_id_preserves_slot_and_generation() {
    let key = UserTaskKey::new(3, 9);
    let task = encode_task(key).expect("valid task key must be encodable");
    assert_eq!(decode_task(task), Some(key));
    assert_eq!(decode_task(0), None);
    assert_eq!(decode_task(0xffff_ffc0_0000_0000usize), None);
    let object = vec![0usize];
    let direct = object.as_ptr() as usize;
    assert_eq!(decode_task(direct), None);
    assert_eq!(encode_task(UserTaskKey::new(SHARED_TASK_SLOT_COUNT, 1)), None);
    assert_eq!(encode_task(UserTaskKey::new(0, 0)), None);
}

#[test]
fn the_kernel_process_is_no_user_process() {
    let kernel = VschedProcessId::kernel();
    assert_eq!(kernel.as_raw(), 0);
    assert!(!kernel.is_user());
}

#[test]
fn task_id_has_an_exact_form() {
    assert_eq!(encode_task(UserTaskKey::new(3, 9)), Some(9 * 128 + 3 * 2 + 1));
    assert_eq!(encode_task(UserTaskKey::new(0, 1)), Some(129));
    let top = UserTaskKey::new(63, USER_TASK_ID_MAX_GENERATION);
    assert_eq!(encode_task(top), Some(usize::MAX));
    assert_eq!(decode_task(usize::MAX), Some(top));
    assert_eq!(encode_task(UserTaskKey::new(0, USER_TASK_ID_MAX_GENERATION + 1)), None);
    assert_eq!(decode_task(127), None);
}

#[test]
fn generations_start_anew_at_one() {
    let mut table = SharedTaskTable::new();
    table.slots[0].generation = USER_TASK_ID_MAX_GENERATION;
    let key = table.allocate(process(1), 0).unwrap();
    assert_eq!(key, UserTaskKey::new(0, 1));
}

#[test]
fn a_released_handle_stays_void_however_often_its_slot_is_used() {
    let mut table = SharedTaskTable::new();
    assert_eq!(table.next_key(), Some(UserTaskKey::new(0, 1)));
    let old = table.allocate(process(1), 0).unwrap();
    assert!(table.set_wake_cpu(old, 3));
    assert!(table.is_live(old));
    assert!(table.release(old));
    for _ in 0..100 {
        let next = table.next_key();
        let key = table.allocate(process(2), 0).unwrap();
        assert_eq!(Some(key), next);
        assert_eq!(key.slot(), old.slot());
        assert!(table.is_live(key));
        assert!(!table.is_live(old));
        assert!(!table.release(old));
        assert!(table.release(key));
        assert!(!table.is_live(key));
    }
    assert!(!table.is_live(UserTaskKey::new(SHARED_TASK_SLOT_COUNT, 1)));
    assert!(!table.is_live(UserTaskKey::new(usize::MAX, 0)));
}

#[test]
fn slots_are_given_in_order_until_none_is_free() {
    let mut table = SharedTaskTable::new();
    let mut keys = vec![];
    for i in 0..SHARED_TASK_SLOT_COUNT {
        let key = table.allocate(process(2), 1).unwrap();
        assert_eq!(key.slot(), i);
        keys.push(key);
    }
    assert!(table.allocate(process(2), 1).is_none());
    assert!(table.release(keys[17]));
    assert_eq!(table.allocate(process(3), 2).unwrap().slot(), 17);
    assert!(table.is_live(keys[16]));
    assert_eq!(table.process_id(keys[16]), Some(process(2)));
}

#[test]
fn a_void_handle_reads_nothing() {
    let mut table = SharedTaskTable::new();
    let key = table.allocate(process(1), 5).unwrap();
    assert_eq!(table.priority(key), Some(5));
    assert_eq!(table.task_state(key), Some(SHARED_TASK_READY));
    assert_eq!(table.context_kind(key), Some(SHARED_CONTEXT_NONE));
    assert!(table.release(key));
    assert_eq!(table.priority(key), None);
    assert_eq!(table.task_state(key), None);
    assert_eq!(table.context_kind(key), None);
    assert_eq!(table.wake_cpu(key), None);
    assert_eq!(table.process_id(key), None);
    assert_eq!(table.swap_task_state(key, SHARED_TASK_EXITED), None);
    assert!(!table.set_context_kind(key, SHARED_CONTEXT_TRAP));
    assert!(!table.set_process_id(key, process(4)));
    assert!(!table.set_wake_cpu(key, 1));
    assert!(!table.is_live(UserTaskKey::new(SHARED_TASK_SLOT_COUNT, 1)));
}

#[test]
fn a_state_is_matched_to_the_one_that_follows_it() {
    let mut table = SharedTaskTable::new();
    let key = table.allocate(process(1), 0).unwrap();
    table.swap_task_state(key, SHARED_TASK_BLOCKING);
    let before = table.match_set_task_state(
        key,
        SHARED_TASK_READY,
        SHARED_TASK_RUNNING,
        SHARED_TASK_READY,
        SHARED_TASK_EXITED,
        SHARED_TASK_BLOCKED,
    );
    assert_eq!(before, Some(SHARED_TASK_BLOCKING));
    assert_eq!(table.task_state(key), Some(SHARED_TASK_BLOCKED));
}

#[test]
fn settings_of_a_live_handle_are_read_back() {
    let mut table = SharedTaskTable::new();
    let key = table.allocate(process(1), 0).unwrap();
    assert!(table.set_process_id(key, process(9)));
    assert_eq!(table.process_id(key), Some(process(9)));
    assert!(table.set_wake_cpu(key, 3));
    assert_eq!(table.wake_cpu(key), Some(3));
    assert!(table.set_context_kind(key, SHARED_CONTEXT_TRAP));
    assert_eq!(table.context_kind(key), Some(SHARED_CONTEXT_TRAP));
    assert_eq!(table.swap_task_state(key, SHARED_TASK_EXITED), Some(SHARED_TASK_READY));
}

#[test]
fn a_new_slot_is_free() {
    let slot = SharedTaskSlot::new();
    assert_eq!(slot.state, SHARED_TASK_FREE);
    assert_eq!(slot.context_owner, SHARED_OWNER_NONE);
    assert_eq!(slot.queue_owner, SHARED_OWNER_NONE);
    assert_ne!(SHARED_TASK_FREE, SHARED_TASK_LIVE);
}

#[test]
fn a_context_is_published_whoever_owns_it() {
    let mut table = SharedTaskTable::default();
    assert_eq!(table.slots[0], SharedTaskSlot::default());
    let key = table.allocate(process(1), 0).unwrap();
    assert!(table.try_claim_context(key, 7));
    assert!(table.publish_context(key, 1, 2, 3, 4));
    let slot = &table.slots[key.slot()];
    assert_eq!((slot.stack_base, slot.stack_size, slot.context, slot.wake_cpu), (1, 2, 3, 4));
    assert_eq!(slot.context_kind, SHARED_CONTEXT_NONE);
    assert!(table.release(key));
    assert!(!table.publish_context(key, 5, 6, 7, 8));
    assert_eq!(table.slots[key.slot()].context, 0);
}
