//! Executors, user tasks, and messages between processes.

use vsched::abi::process::VschedProcessId;
use vsched::abi::slot::SHARED_CONTEXT_COROUTINE;
use vsched::abi::table::SharedTaskTable;
use vsched::abi::task::encode_task;
use vsched::axtask::api::{CurrentSlot, TaskRef};
use vsched::executor::api::{
    current_executor, current_task, current_task_may_uninit, init, init_secondary, init_user,
    load_user_actions, start_user_actions, user_page_table, Executors, InitUserAction,
    LoadedProgram, PageTableWork,
};
use vsched::executor::current::{CurrentExecutor, ExecutorSlot};
use vsched::executor::process::{Executor, ExecutorRef, KERNEL_EXECUTOR_ID};
use vsched::state::TaskState;
use vsched::user::{current_task as current_user_task, task};
use vsched::vipc::{IPCItem, IpcEntity, IpcError, VqueueCall};

fn program() -> LoadedProgram {
    LoadedProgram {
        pid: 5,
        aspace: 0x500,
        root: 0x700,
        entry: 0x4000,
        stack: 0x9000,
        path: String::from("/bin/sh"),
        args: vec![String::from("sh"), String::from("-c")],
        task: 0x600,
    }
}

#[test]
fn the_first_process_is_a_child_of_the_kernel() {
    let mut executors = Executors::new();
    let mut slot = ExecutorSlot { ptr: 0 };
    init(&mut executors, &mut slot, 0x100, 0x4000_0000);
    assert_eq!(slot.ptr, 0x100);
    let mut second = ExecutorSlot { ptr: 0 };
    init_secondary(&executors, &mut second);
    assert_eq!(second.ptr, 0x100);

    let task = init_user(&mut executors, 0x200, program(), 0x4000_0000);
    assert_eq!(task, TaskRef { addr: 0x600 });
    assert_eq!(current_executor(&executors, 5).addr, 0x200);
    assert_eq!(current_executor(&executors, KERNEL_EXECUTOR_ID).addr, 0x100);
    let process = executors.objects.get(&0x200).unwrap();
    assert_eq!(process.pid(), 5);
    assert_eq!(process.get_parent_pid(), KERNEL_EXECUTOR_ID);
    assert_eq!(process.aspace, Some(0x500));
    assert_eq!(process.get_exe_path(), "/bin/sh");
    assert_eq!(process.cmdline.len(), 2);
    assert_eq!(process.get_heap_top(), 0x4000_0000);
    assert_eq!(process.tasks, vec![TaskRef { addr: 0x600 }]);
    assert_eq!(process.get_main_task(), Some(TaskRef { addr: 0x600 }));
    let kernel = executors.objects.get(&0x100).unwrap();
    assert_eq!(kernel.children, vec![ExecutorRef { addr: 0x200 }]);
}

#[test]
fn the_first_program_is_loaded_and_started_in_order() {
    assert_eq!(
        load_user_actions(0x700, 0x800),
        vec![
            InitUserAction::DisableIrqs,
            InitUserAction::SwitchPageTable { root: 0x700 },
            InitUserAction::AllowAccess,
            InitUserAction::Load,
            InitUserAction::EnableIrqs,
        ]
    );
    assert_eq!(load_user_actions(0x700, 0x700).len(), 4);
    assert_eq!(
        load_user_actions(0, 0x800),
        vec![InitUserAction::DisableIrqs, InitUserAction::Load, InitUserAction::EnableIrqs]
    );
    assert_eq!(
        start_user_actions(&program()),
        vec![
            InitUserAction::AddStdio { pid: 5 },
            InitUserAction::MakeTask {
                task: 0x600,
                pid: 5,
                root: 0x700,
                entry: 0x4000,
                stack: 0x9000,
            },
            InitUserAction::AddTask { task: 0x600 },
            InitUserAction::SetLeader { task: 0x600 },
            InitUserAction::EnterTable,
        ]
    );
}

#[test]
fn a_process_keeps_what_it_is_told() {
    let mut process =
        Executor::new(7, 1, None, String::from("a"), vec![], 0x1000);
    assert_eq!(process.get_code_if_exit(), None);
    process.set_exit_code(-3);
    assert_eq!(process.get_code_if_exit(), None);
    process.set_zombie(true);
    assert!(process.get_zombie());
    assert_eq!(process.get_exit_code(), -3);
    assert_eq!(process.get_code_if_exit(), Some(-3));
    process.set_parent_pid(4);
    assert_eq!(process.get_parent_pid(), 4);
    process.set_heap_top(0x2000);
    assert_eq!(process.get_heap_top(), 0x2000);
    process.set_exe_path(String::from("/b"));
    assert_eq!(process.get_exe_path(), "/b");
    process.set_main_task(TaskRef { addr: 8 });
    assert_eq!(process.get_main_task(), Some(TaskRef { addr: 8 }));
    assert_eq!(process.exit_main_task(), Some(TaskRef { addr: 8 }));
    assert_eq!(process.exit_main_task(), None);
    let kernel = Executor::new_init(0x1000);
    assert_eq!((kernel.pid(), kernel.get_parent_pid()), (1, 1));
    assert_eq!(kernel.get_exe_path(), "");
}

#[test]
fn the_executor_of_a_cpu_comes_and_goes() {
    let mut slot = ExecutorSlot { ptr: 0 };
    assert!(CurrentExecutor::try_get(&slot).is_none());
    CurrentExecutor::init_current(&mut slot, ExecutorRef { addr: 8 });
    let current = CurrentExecutor::get(&slot);
    assert_eq!(current.as_executor_ref().addr, 8);
    assert_eq!(current.clone().addr, 8);
    assert!(current.ptr_eq(&ExecutorRef { addr: 8 }));
    assert!(!current.ptr_eq(&ExecutorRef { addr: 9 }));
    assert_eq!(CurrentExecutor::clean_current(&mut slot).addr, 8);
    slot.ptr = 9;
    CurrentExecutor::clean_current_without_drop(&mut slot);
    assert_eq!(slot.ptr, 0);
}

#[test]
fn a_task_of_a_cpu_is_current() {
    assert!(current_task_may_uninit(&CurrentSlot { ptr: 0 }).is_none());
    assert_eq!(current_task_may_uninit(&CurrentSlot { ptr: 8 }).unwrap().task.addr, 8);
    assert_eq!(current_task(&CurrentSlot { ptr: 8 }).task.addr, 8);
}

#[test]
fn a_page_table_is_written_if_it_is_another() {
    assert_eq!(user_page_table(0, 5), PageTableWork { switch: false, allow_access: false });
    assert_eq!(user_page_table(5, 5), PageTableWork { switch: false, allow_access: true });
    assert_eq!(user_page_table(6, 5), PageTableWork { switch: true, allow_access: true });
}

#[test]
fn user_space_sees_its_tasks_by_their_ids() {
    let mut table = SharedTaskTable::new();
    let key = table.allocate(VschedProcessId::from_user_raw(3).unwrap(), 6).unwrap();
    table.initialize_context_kind(key, SHARED_CONTEXT_COROUTINE);
    let id = encode_task(key).unwrap();
    let user = task(&table, id).unwrap();
    assert_eq!(user.state(&table), TaskState::Ready);
    assert_eq!(user.set_state(&mut table, TaskState::Running), TaskState::Ready);
    assert_eq!(
        user.match_set_state(
            &mut table,
            TaskState::Ready,
            TaskState::Blocking,
            TaskState::Blocked,
            TaskState::Exited,
            TaskState::Blocking,
        ),
        TaskState::Running
    );
    assert_eq!(user.state(&table), TaskState::Blocking);
    assert_eq!(user.priority(&table), 6);
    assert!(user.is_coroutine(&table));
    assert!(!user.is_kernel(&table));
    assert_eq!(user.pid(&table), 3);
    user.set_pid(&mut table, 4);
    assert_eq!(user.pid(&table), 4);
    assert!(current_user_task(&table, id).is_some());
    assert!(task(&table, 0x1000).is_none());
    assert!(table.release(key));
    assert!(task(&table, id).is_none());
    assert!(current_user_task(&table, id).is_none());
}

#[test]
fn messages_go_to_the_receivers_queue() {
    assert_eq!(IpcEntity::register(None), Err(IpcError::RegisterFailed));
    let client = IpcEntity::register(Some(3)).unwrap();
    assert_eq!(client.id(), 3);
    let data = [0xaa, 0xbb, 0xcc, 0, 0, 0, 0, 0];
    assert_eq!(
        client.send_to(9, 42, data),
        VqueueCall::DequePush {
            process_id: 9,
            item: IPCItem { sender: 3, msg_type: 42, rep_type: 0, data },
        }
    );
    assert_eq!(IpcEntity::sent(true), Ok(()));
    assert_eq!(IpcEntity::sent(false), Err(IpcError::QueueFull));
    assert_eq!(IpcError::QueueFull.message(), "queue full");
    assert_eq!(IpcError::RegisterFailed.message(), "register failed");
    assert_eq!(client.try_recv(), VqueueCall::DequePop { process_id: 3 });
    assert_eq!(client.set_pid(100), VqueueCall::SetPid { process_id: 3, pid: 100 });
    assert_eq!(client.get_pid(), VqueueCall::GetPid { process_id: 3 });
    assert_eq!(
        client.map_add(1001, 2001),
        VqueueCall::MapAddEntry { process_id: 3, msg_type: 1001, ntf_id: 2001 }
    );
    assert_eq!(client.map_get(1001), VqueueCall::MapGetNtfId { process_id: 3, msg_type: 1001 });
    assert_eq!(client.map_pop(1001), VqueueCall::MapPopNtfId { process_id: 3, msg_type: 1001 });
    let (other, call) = IpcEntity::from_id(3);
    assert_eq!(call, VqueueCall::RetainSlot { process_id: 3 });
    assert_eq!(other.release(), VqueueCall::ReleaseSlot { process_id: 3 });
}
