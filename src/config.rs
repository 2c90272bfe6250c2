use vstd::prelude::*;

verus! {

/// Capacity of the task table: the most applications the kernel can hold.
pub const MAX_APP_NUM: usize = 16;

/// Number of distinct syscall ids that get an invocation counter.
pub const MAX_SYSCALL_NUM: usize = 500;

} // verus!
