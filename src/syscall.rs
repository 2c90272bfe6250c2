use vstd::prelude::*;

use crate::manager::{suspend_current_and_run_next, Switch, TaskManager};
use crate::task::TaskStatus;

verus! {

/// The yield syscall: the running task gives up the processor. Returns the
/// result code the task sees once it is resumed (always 0) and the switch
/// that hands the processor to the next task in round-robin order.
pub fn sys_yield(tm: &mut TaskManager, now: usize) -> (r: (isize, Switch))
    requires
        now > 0,
        old(tm)@.running(),
    ensures
        r.0 == 0,
        old(tm)@.mark_current(TaskStatus::Ready).next_ready() == Some(r.1.to as int),
        r.1.from == old(tm)@.current,
        final(tm)@ == old(tm)@.mark_current(TaskStatus::Ready).dispatch(r.1.to as int, now),
        final(tm)@.running(),
{
    let sw = suspend_current_and_run_next(tm, now);
    (0, sw)
}

} // verus!
