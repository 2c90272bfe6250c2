use vstd::prelude::*;

use crate::config::{MAX_APP_NUM, MAX_SYSCALL_NUM};
use crate::manager::{
    lemma_count_syscall_inv, lemma_dispatch_inv, lemma_first_ready_from, lemma_first_dispatch_inv, lemma_mark_inv,
    TaskTable,
};
use crate::task::TaskStatus;

verus! {

/// `b` is what one operation of the task manager makes of `a`: a suspend, an
/// exit, a dispatch of the round-robin choice or the first dispatch (each at
/// a clock reading above 0), one counted syscall, or an operation that
/// changes nothing.
pub open spec fn step(a: TaskTable, b: TaskTable) -> bool {
    ||| a.inv() && b == a
    ||| a.running() && b == a.mark_current(TaskStatus::Ready)
    ||| a.running() && b == a.mark_current(TaskStatus::Exited)
    ||| a.inv() && a.status(a.current as int) != TaskStatus::Running && a.next_ready() is Some
        && exists|now: usize| now > 0 && #[trigger] a.dispatch(a.next_ready()->0, now) == b
    ||| a.inv() && a.is_fresh() && a.num_app >= 1 && exists|now: usize|
        now > 0 && #[trigger] a.dispatch(0, now) == b
    ||| a.running() && exists|id: int|
        0 <= id < MAX_SYSCALL_NUM && a.count(a.current as int, id) < u32::MAX
            && #[trigger] a.count_syscall(id) == b
}

/// What no later state may undo: the set of applications, terminal
/// `Exited` slots, start times once stamped, and syscall counts.
pub open spec fn keeps_history(a: TaskTable, b: TaskTable) -> bool {
    &&& b.num_app == a.num_app
    &&& forall|i: int|
        0 <= i < MAX_APP_NUM ==> {
            &&& #[trigger] a.status(i) == TaskStatus::Exited ==> b.status(i) == TaskStatus::Exited
            &&& a.start_time(i) != 0 ==> b.start_time(i) == a.start_time(i)
        }
    &&& forall|i: int, id: int|
        0 <= i < MAX_APP_NUM && 0 <= id < MAX_SYSCALL_NUM ==> #[trigger] a.count(i, id) <= b.count(
            i,
            id,
        )
}

proof fn lemma_first_ready_from_scan(t: TaskTable, d: int)
    requires
        t.inv(),
        d >= 1,
    ensures
        t.first_ready_from(d) is None <==> forall|e: int|
            d <= e <= t.num_app ==> t.status(#[trigger] t.slot_after(e)) != TaskStatus::Ready,
        t.first_ready_from(d) matches Some(j) ==> exists|e: int|
            d <= e <= t.num_app && j == #[trigger] t.slot_after(e) && t.status(j)
                == TaskStatus::Ready && forall|f: int|
                d <= f < e ==> t.status(#[trigger] t.slot_after(f)) != TaskStatus::Ready,
    decreases t.num_app + 1 - d,
{
    if d <= t.num_app && t.status(t.slot_after(d)) != TaskStatus::Ready {
        lemma_first_ready_from_scan(t, d + 1);
        if let Some(j) = t.first_ready_from(d) {
            let e = choose|e: int|
                d + 1 <= e <= t.num_app && j == #[trigger] t.slot_after(e) && t.status(j)
                    == TaskStatus::Ready && forall|f: int|
                    d + 1 <= f < e ==> t.status(#[trigger] t.slot_after(f)) != TaskStatus::Ready;
            assert(forall|f: int|
                d <= f < e ==> t.status(#[trigger] t.slot_after(f)) != TaskStatus::Ready);
        }
    }
}

/// Round-robin selection: the choice is the first `Ready` slot in the
/// cyclic order `current + 1, current + 2, ..., current + num_app` (each
/// modulo `num_app`), and there is none exactly when no slot in that order
/// is `Ready`.
pub proof fn lemma_round_robin(t: TaskTable)
    requires
        t.inv(),
    ensures
        t.next_ready() is None <==> forall|d: int|
            1 <= d <= t.num_app ==> t.status(#[trigger] t.slot_after(d)) != TaskStatus::Ready,
        t.next_ready() matches Some(j) ==> exists|d: int|
            1 <= d <= t.num_app && j == #[trigger] t.slot_after(d) && t.status(j)
                == TaskStatus::Ready && forall|e: int|
                1 <= e < d ==> t.status(#[trigger] t.slot_after(e)) != TaskStatus::Ready,
{
    lemma_first_ready_from_scan(t, 1);
}

/// One operation keeps the table well formed and keeps its history: an
/// `Exited` slot stays `Exited`, a stamped start time is never changed, and
/// counters never go down. A start time is stamped only on a slot's
/// transition into `Running`, and a counter moves only for the slot that
/// holds the processor.
pub proof fn lemma_step_keeps_history(a: TaskTable, b: TaskTable)
    requires
        step(a, b),
    ensures
        b.inv(),
        keeps_history(a, b),
        forall|i: int|
            0 <= i < MAX_APP_NUM && a.start_time(i) == 0 && #[trigger] b.start_time(i) != 0
                ==> a.status(i) != TaskStatus::Running && b.status(i) == TaskStatus::Running,
        forall|i: int, id: int|
            0 <= i < MAX_APP_NUM && 0 <= id < MAX_SYSCALL_NUM && #[trigger] b.count(i, id) != a.count(
                i,
                id,
            ) ==> i == a.current && a.status(i) == TaskStatus::Running,
{
    if a.inv() && b == a {
    } else if a.running() && b == a.mark_current(TaskStatus::Ready) {
        lemma_mark_inv(a, TaskStatus::Ready);
    } else if a.running() && b == a.mark_current(TaskStatus::Exited) {
        lemma_mark_inv(a, TaskStatus::Exited);
    } else if a.inv() && a.status(a.current as int) != TaskStatus::Running && a.next_ready() is Some
        && exists|now: usize| now > 0 && #[trigger] a.dispatch(a.next_ready()->0, now) == b {
        let now = choose|now: usize| now > 0 && #[trigger] a.dispatch(a.next_ready()->0, now) == b;
        lemma_dispatch_inv(a, now);
        lemma_first_ready_from(a, 1);
    } else if a.inv() && a.is_fresh() && a.num_app >= 1 && exists|now: usize|
        now > 0 && #[trigger] a.dispatch(0, now) == b {
        let now = choose|now: usize| now > 0 && #[trigger] a.dispatch(0, now) == b;
        lemma_first_dispatch_inv(a, now);
        assert(a.status(0) == TaskStatus::Ready);
    } else {
        let id = choose|id: int|
            0 <= id < MAX_SYSCALL_NUM && a.count(a.current as int, id) < u32::MAX
                && #[trigger] a.count_syscall(id) == b;
        lemma_count_syscall_inv(a, id);
        lemma_count_syscall_exact(a, id);
    }
}

/// Over any run of operations from a well-formed table, the history of the
/// first state is kept by the last: no `Exited` slot ever becomes `Ready` or
/// `Running` again, no stamped start time is reset, and no counter decreases.
pub proof fn lemma_run_keeps_history(run: Seq<TaskTable>)
    requires
        run.len() >= 1,
        run[0].inv(),
        forall|k: int| 0 <= k < run.len() - 1 ==> step(#[trigger] run[k], run[k + 1]),
    ensures
        run.last().inv(),
        keeps_history(run[0], run.last()),
    decreases run.len(),
{
    if run.len() > 1 {
        let prefix = run.drop_last();
        assert forall|k: int| 0 <= k < prefix.len() - 1 implies step(
            #[trigger] prefix[k],
            prefix[k + 1],
        ) by {
            assert(prefix[k] == run[k] && prefix[k + 1] == run[k + 1]);
        }
        lemma_run_keeps_history(prefix);
        let n = run.len() - 1;
        assert(step(run[n - 1], run[n]));
        lemma_step_keeps_history(run[n - 1], run[n]);
        assert(prefix.last() == run[n - 1]);
    }
}

/// Counting syscall `id` adds exactly one to the running slot's counter for
/// `id` and leaves every other counter of every slot unchanged.
pub proof fn lemma_count_syscall_exact(t: TaskTable, id: int)
    requires
        t.running(),
        0 <= id < MAX_SYSCALL_NUM,
        t.count(t.current as int, id) < u32::MAX,
    ensures
        forall|i: int, k: int|
            0 <= i < MAX_APP_NUM && 0 <= k < MAX_SYSCALL_NUM ==> #[trigger] t.count_syscall(id).count(
                i,
                k,
            ) == if i == t.current && k == id {
                t.count(i, k) + 1
            } else {
                t.count(i, k) as int
            },
{
    assert forall|i: int, k: int|
        0 <= i < MAX_APP_NUM && 0 <= k < MAX_SYSCALL_NUM implies #[trigger] t.count_syscall(id).count(
        i,
        k,
    ) == if i == t.current && k == id {
        t.count(i, k) + 1
    } else {
        t.count(i, k) as int
    } by {
        if i == t.current {
            assert(t.count_syscall(id).tasks[i].task_syscall_times@
                == t.tasks[i].task_syscall_times@.update(id, (t.count(i, id) + 1) as u32));
        }
    }
}

/// An introspection query reports `Running`, the running slot's counters,
/// and `now` minus its start time; for a later `now` the elapsed time is no
/// smaller.
pub proof fn lemma_task_info(t: TaskTable, now1: usize, now2: usize)
    requires
        t.inv(),
        t.start_time(t.current as int) <= now1 <= now2,
    ensures
        t.info(now1).status == TaskStatus::Running,
        t.info(now1).syscall_times == t.tasks[t.current as int].task_syscall_times,
        t.info(now1).time == now1 - t.start_time(t.current as int),
        t.info(now1).time <= t.info(now2).time,
{
}

} // verus!
