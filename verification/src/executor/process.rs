//! A process whose tasks are futures.

use vstd::prelude::*;

use crate::axtask::api::TaskRef;

verus! {

/// The executor of the kernel's own tasks.
pub const KERNEL_EXECUTOR_ID: usize = 1;

/// A reference to an executor, by its address.
#[derive(Debug, Eq, PartialEq, Structural)]
pub struct ExecutorRef {
    pub addr: usize,
}

/// A process.
pub struct Executor {
    pub pid: usize,
    pub parent: usize,
    pub children: Vec<ExecutorRef>,
    pub is_zombie: bool,
    pub exit_code: isize,
    /// Its address space, by address. The kernel's executor has none of its own.
    pub aspace: Option<usize>,
    pub heap_top: usize,
    pub exe_path: String,
    pub cmdline: Vec<String>,
    pub main_task: Option<TaskRef>,
    pub tasks: Vec<TaskRef>,
}

impl Executor {
    /// Whether the process has just been made: it runs, it has no children and no tasks.
    pub open spec fn is_new(
        &self,
        pid: usize,
        parent: usize,
        aspace: Option<usize>,
        exe_path: Seq<char>,
        cmdline: Seq<String>,
        heap_base: usize,
    ) -> bool {
        &&& self.pid == pid
        &&& self.parent == parent
        &&& self.children@ == Seq::<ExecutorRef>::empty()
        &&& !self.is_zombie
        &&& self.exit_code == 0
        &&& self.aspace == aspace
        &&& self.heap_top == heap_base
        &&& self.exe_path@ == exe_path
        &&& self.cmdline@ == cmdline
        &&& self.main_task is None
        &&& self.tasks@ == Seq::<TaskRef>::empty()
    }

    /// Makes a process. `heap_base` is where the heaps of user processes begin.
    pub fn new(
        pid: usize,
        parent: usize,
        aspace: Option<usize>,
        exe_path: String,
        cmdline: Vec<String>,
        heap_base: usize,
    ) -> (executor: Self)
        ensures
            executor.is_new(pid, parent, aspace, exe_path@, cmdline@, heap_base),
    {
        Executor {
            pid,
            parent,
            children: Vec::new(),
            is_zombie: false,
            exit_code: 0,
            aspace,
            heap_top: heap_base,
            exe_path,
            cmdline,
            main_task: None,
            tasks: Vec::new(),
        }
    }

    /// Makes the kernel's executor, which is its own parent.
    pub fn new_init(heap_base: usize) -> (executor: Self)
        ensures
            executor.is_new(
                KERNEL_EXECUTOR_ID,
                KERNEL_EXECUTOR_ID,
                None,
                Seq::empty(),
                Seq::empty(),
                heap_base,
            ),
    {
        Executor::new(
            KERNEL_EXECUTOR_ID,
            KERNEL_EXECUTOR_ID,
            None,
            String::new(),
            Vec::new(),
            heap_base,
        )
    }

    pub fn pid(&self) -> (pid: usize)
        ensures
            pid == self.pid,
    {
        self.pid
    }

    pub fn get_parent_pid(&self) -> (parent: usize)
        ensures
            parent == self.parent,
    {
        self.parent
    }

    pub fn set_parent_pid(&mut self, parent: usize)
        ensures
            *final(self) == (Executor { parent, ..*old(self) }),
    {
        self.parent = parent;
    }

    /// The code with which the process exited.
    pub fn get_exit_code(&self) -> (exit_code: isize)
        ensures
            exit_code == self.exit_code,
    {
        self.exit_code
    }

    pub fn set_exit_code(&mut self, exit_code: isize)
        ensures
            *final(self) == (Executor { exit_code, ..*old(self) }),
    {
        self.exit_code = exit_code;
    }

    /// Whether the process has exited, and nobody has read its code.
    pub fn get_zombie(&self) -> (zombie: bool)
        ensures
            zombie == self.is_zombie,
    {
        self.is_zombie
    }

    pub fn set_zombie(&mut self, status: bool)
        ensures
            *final(self) == (Executor { is_zombie: status, ..*old(self) }),
    {
        self.is_zombie = status;
    }

    pub fn set_heap_top(&mut self, top: usize)
        ensures
            *final(self) == (Executor { heap_top: top, ..*old(self) }),
    {
        self.heap_top = top;
    }

    pub fn get_heap_top(&self) -> (top: usize)
        ensures
            top == self.heap_top,
    {
        self.heap_top
    }

    /// Sets the path of the program that the process runs.
    pub fn set_exe_path(&mut self, path: String)
        ensures
            *final(self) == (Executor { exe_path: path, ..*old(self) }),
    {
        self.exe_path = path;
    }

    /// The path of the program that the process runs.
    pub fn get_exe_path(&self) -> (path: String)
        ensures
            path@ == self.exe_path@,
    {
        self.exe_path.clone()
    }

    /// The code with which the process exited, if it has.
    pub fn get_code_if_exit(&self) -> (code: Option<isize>)
        ensures
            code == (if self.is_zombie {
                Some(self.exit_code)
            } else {
                None
            }),
    {
        if self.get_zombie() {
            return Some(self.get_exit_code());
        }
        None
    }

    pub fn set_main_task(&mut self, task: TaskRef)
        ensures
            *final(self) == (Executor { main_task: Some(task), ..*old(self) }),
    {
        self.main_task = Some(task);
    }

    /// A reference of one's own to the main task, if there is one.
    pub fn get_main_task(&self) -> (task: Option<TaskRef>)
        ensures
            task == self.main_task,
    {
        match &self.main_task {
            Some(task) => Some(TaskRef { addr: task.addr }),
            None => None,
        }
    }

    /// Takes the main task out of the process, if there is one.
    pub fn exit_main_task(&mut self) -> (task: Option<TaskRef>)
        ensures
            task == old(self).main_task,
            *final(self) == (Executor { main_task: None, ..*old(self) }),
    {
        let task: Option<TaskRef> = self.get_main_task();
        self.main_task = None;
        task
    }
}

} // verus!
