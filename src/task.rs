use vstd::array::spec_array_update;
use vstd::prelude::*;

use crate::config::MAX_SYSCALL_NUM;
use crate::context::TaskContext;

verus! {

/// Lifecycle state of one slot of the task table.
#[derive(Clone, Copy, Debug, PartialEq, Eq, Structural)]
pub enum TaskStatus {
    /// The slot holds no application.
    UnInit,
    /// Eligible to be dispatched.
    Ready,
    /// Holds the processor.
    Running,
    /// Terminated; never runs again.
    Exited,
}

/// Per-task record: status, saved context, time of first dispatch
/// (0 while the task has never run) and one invocation counter per syscall id.
#[derive(Clone, Copy)]
pub struct TaskControlBlock {
    pub task_status: TaskStatus,
    pub task_cx: TaskContext,
    pub task_start_time: usize,
    pub task_syscall_times: [u32; MAX_SYSCALL_NUM],
}

impl TaskControlBlock {
    /// The same block with its status replaced by `s`.
    pub open spec fn with_status(self, s: TaskStatus) -> TaskControlBlock {
        TaskControlBlock { task_status: s, ..self }
    }

    /// The block after it is handed the processor at time `now`: it becomes
    /// `Running`, and its start time is stamped unless it was stamped before.
    pub open spec fn dispatched(self, now: usize) -> TaskControlBlock {
        TaskControlBlock {
            task_status: TaskStatus::Running,
            task_start_time: if self.task_start_time == 0 {
                now
            } else {
                self.task_start_time
            },
            ..self
        }
    }

    /// The block after one more invocation of syscall `id` is counted.
    pub open spec fn counted(self, id: int) -> TaskControlBlock {
        TaskControlBlock {
            task_syscall_times: spec_array_update(
                self.task_syscall_times,
                id,
                (self.task_syscall_times[id] + 1) as u32,
            ),
            ..self
        }
    }

    /// No syscall has been counted and the task has never been dispatched.
    pub open spec fn untouched(self) -> bool {
        &&& self.task_start_time == 0
        &&& forall|id: int| 0 <= id < MAX_SYSCALL_NUM ==> #[trigger] self.task_syscall_times[id] == 0
    }
}

} // verus!
