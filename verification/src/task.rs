//! The running task as the syscall surface sees it: its scheduling status,
//! its per-syscall invocation counters, its elapsed running time, and its
//! address space. A real scheduler owns this state; here it is passed
//! explicitly into each syscall.

use vstd::prelude::*;
use crate::address_space::AddressSpace;
use crate::page_table::Pte;

verus! {

broadcast use vstd::array::group_array_axioms;

/// Number of syscall ids the per-task invocation counter table covers.
pub const MAX_SYSCALL_NUM: usize = 500;

/// Scheduling status of a task.
#[derive(Clone, Copy, PartialEq, Eq, Structural, Debug)]
pub enum TaskStatus {
    UnInit,
    Ready,
    Running,
    Exited,
}

/// Snapshot of the running task, produced on demand for `sys_task_info` and
/// written into user memory as (status, counter table, elapsed
/// milliseconds), in that order.
#[derive(Clone, Copy)]
pub struct TaskInfo {
    pub status: TaskStatus,
    pub syscall_times: [u32; MAX_SYSCALL_NUM],
    pub time: usize,
}

/// One task's live state. The address space is owned by the task; the
/// status, counters and running time are maintained by the scheduler and
/// read here.
pub struct Task {
    pub status: TaskStatus,
    pub syscall_times: [u32; MAX_SYSCALL_NUM],
    pub run_time_us: usize,
    pub space: AddressSpace,
}

impl Task {
    /// A task is well-formed when its address space is.
    pub open spec fn wf(self) -> bool {
        self.space.wf()
    }

    /// A freshly started task: running, nothing mapped, no syscall counted,
    /// no time consumed.
    pub fn new() -> (t: Task)
        ensures
            t.status == TaskStatus::Running,
            t.space@ == Map::<usize, Pte>::empty(),
            t.space.next_frame == 0,
            t.run_time_us == 0,
            forall|i: int| 0 <= i < MAX_SYSCALL_NUM ==> t.syscall_times@[i] == 0,
            t.wf(),
    {
        Task {
            status: TaskStatus::Running,
            syscall_times: [0u32; MAX_SYSCALL_NUM],
            run_time_us: 0,
            space: AddressSpace::new(),
        }
    }
}

} // verus!
