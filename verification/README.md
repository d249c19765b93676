# vsched

How a kernel lives with a scheduler that is shared by kernel and user space: the scheduler's
code and part of its data are in a shared object that every address space maps.

The library holds what the kernel decides and keeps, with contracts that Verus proves:

- `abi`: process IDs, task IDs, and the table of task slots that user space sees.
- `sched`: task objects and the registry that finds them, contexts and frames, traps and their
  handlers, stacks, address spaces, and how the scheduler is started.
- `axtask`, `asynctask`: the hooks of the task API, the waker of a blocked task and its
  handshake with the polling task, the task that a CPU runs, alarms.
- `syscall`: traps of user tasks, and the system calls that make, replace, end and wait for
  tasks.
- `executor`: processes whose tasks are futures.
- `vdso`: images of shared objects, how they are mapped and where their functions are.
- `user`, `vipc`: tasks as user space has them, and messages between processes.

What is atomic on a machine is one call here. Addresses are numbers. What only the machine, the
file system or the shared object can do is asked for by a value that a function returns, and its
answer is handed to the next call.

`app/` is the program around the library: it carries out what the library asks for.
