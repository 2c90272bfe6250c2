//! Task-scheduling core of a small single-core kernel: a fixed table of task
//! control blocks, cooperative round-robin selection, per-task syscall
//! counters and start times. The library decides every transition; the
//! caller performs the context switch that each decision names.
pub mod config;
pub mod context;
pub mod lemmas;
pub mod manager;
pub mod syscall;
pub mod task;

pub use config::{MAX_APP_NUM, MAX_SYSCALL_NUM};
pub use context::TaskContext;
pub use manager::{
    exit_current_and_run_next, get_task_info, increase_syscall_time, run_first_task,
    suspend_current_and_run_next, Switch, TaskInfo, TaskManager, TaskTable,
};
pub use syscall::sys_yield;
pub use task::{TaskControlBlock, TaskStatus};
