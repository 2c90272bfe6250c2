use vstd::prelude::*;

use crate::config::{MAX_APP_NUM, MAX_SYSCALL_NUM};
use crate::context::TaskContext;
use crate::task::{TaskControlBlock, TaskStatus};

verus! {

/// Mathematical model of the task manager: how many slots are populated,
/// which slot is current, and the whole fixed-capacity table.
pub struct TaskTable {
    pub num_app: nat,
    pub current: nat,
    pub tasks: Seq<TaskControlBlock>,
}

impl TaskTable {
    /// Status of slot `i`.
    pub open spec fn status(self, i: int) -> TaskStatus {
        self.tasks[i].task_status
    }

    /// Time of slot `i`'s first dispatch, 0 while it has never run.
    pub open spec fn start_time(self, i: int) -> usize {
        self.tasks[i].task_start_time
    }

    /// How many times slot `i` has invoked syscall `id`.
    pub open spec fn count(self, i: int, id: int) -> u32 {
        self.tasks[i].task_syscall_times[id]
    }

    /// Well-formedness: slots `0..num_app` are populated and the rest are
    /// `UnInit`; `current` is a populated slot (or 0 when there is none);
    /// only the current slot can be `Running`, and a `Running` slot has its
    /// start time stamped.
    pub open spec fn inv(self) -> bool {
        &&& self.num_app <= MAX_APP_NUM
        &&& self.tasks.len() == MAX_APP_NUM
        &&& if self.num_app == 0 {
            self.current == 0
        } else {
            self.current < self.num_app
        }
        &&& forall|i: int|
            0 <= i < MAX_APP_NUM ==> (i < self.num_app <==> #[trigger] self.status(i)
                != TaskStatus::UnInit)
        &&& forall|i: int|
            0 <= i < MAX_APP_NUM && #[trigger] self.status(i) == TaskStatus::Running ==> i
                == self.current && self.start_time(i) != 0
    }

    /// A task holds the processor: the current slot is `Running`.
    pub open spec fn running(self) -> bool {
        &&& self.inv()
        &&& self.status(self.current as int) == TaskStatus::Running
    }

    /// The state right after construction: nothing has been dispatched yet.
    pub open spec fn is_fresh(self) -> bool {
        &&& self.current == 0
        &&& forall|i: int|
            0 <= i < self.num_app ==> #[trigger] self.status(i) == TaskStatus::Ready
                && self.start_time(i) == 0
    }

    /// The slot `d` steps forward of the current one, wrapping at `num_app`.
    pub open spec fn slot_after(self, d: int) -> int {
        (self.current + d) % (self.num_app as int)
    }

    /// The first `Ready` slot among `slot_after(d), slot_after(d + 1), ...,
    /// slot_after(num_app)`.
    pub open spec fn first_ready_from(self, d: int) -> Option<int>
        decreases self.num_app + 1 - d,
    {
        if d > self.num_app {
            None
        } else if self.status(self.slot_after(d)) == TaskStatus::Ready {
            Some(self.slot_after(d))
        } else {
            self.first_ready_from(d + 1)
        }
    }

    /// Round-robin choice: the first `Ready` slot scanning forward from just
    /// after the current one, the current one itself last.
    pub open spec fn next_ready(self) -> Option<int> {
        self.first_ready_from(1)
    }

    /// The current slot's status set to `s`.
    pub open spec fn mark_current(self, s: TaskStatus) -> TaskTable {
        TaskTable {
            tasks: self.tasks.update(
                self.current as int,
                self.tasks[self.current as int].with_status(s),
            ),
            ..self
        }
    }

    /// Slot `j` becomes current and `Running`, stamped at `now` on its first
    /// dispatch.
    pub open spec fn dispatch(self, j: int, now: usize) -> TaskTable {
        TaskTable {
            num_app: self.num_app,
            current: j as nat,
            tasks: self.tasks.update(j, self.tasks[j].dispatched(now)),
        }
    }

    /// One more invocation of syscall `id` counted for the current slot.
    pub open spec fn count_syscall(self, id: int) -> TaskTable {
        TaskTable {
            tasks: self.tasks.update(
                self.current as int,
                self.tasks[self.current as int].counted(id),
            ),
            ..self
        }
    }

    /// What an introspection query by the current task at time `now` reports.
    pub open spec fn info(self, now: usize) -> TaskInfo {
        TaskInfo {
            status: TaskStatus::Running,
            syscall_times: self.tasks[self.current as int].task_syscall_times,
            time: (now - self.start_time(self.current as int)) as usize,
        }
    }
}

/// Snapshot of the running task handed out by an introspection query.
#[derive(Clone, Copy)]
pub struct TaskInfo {
    pub status: TaskStatus,
    pub syscall_times: [u32; MAX_SYSCALL_NUM],
    pub time: usize,
}

impl TaskInfo {
    /// A blank snapshot, to be filled in by a query.
    pub fn zero_init() -> (r: TaskInfo)
        ensures
            r.status == TaskStatus::UnInit,
            r.time == 0,
            forall|id: int| 0 <= id < MAX_SYSCALL_NUM ==> #[trigger] r.syscall_times[id] == 0,
    {
        TaskInfo { status: TaskStatus::UnInit, syscall_times: [0u32; MAX_SYSCALL_NUM], time: 0 }
    }
}

/// A control transfer to perform: save the processor state into slot
/// `from`'s context and resume slot `to`'s context.
#[derive(Clone, Copy, Debug, PartialEq, Eq, Structural)]
pub struct Switch {
    pub from: usize,
    pub to: usize,
}

/// `first_ready_from` only ever names a populated `Ready` slot.
pub(crate) proof fn lemma_first_ready_from(t: TaskTable, d: int)
    requires
        t.inv(),
        d >= 1,
    ensures
        t.first_ready_from(d) matches Some(j) ==> 0 <= j < t.num_app && t.status(j)
            == TaskStatus::Ready,
    decreases t.num_app + 1 - d,
{
    if d <= t.num_app && t.status(t.slot_after(d)) != TaskStatus::Ready {
        lemma_first_ready_from(t, d + 1);
    }
}

/// Dispatching the round-robin choice keeps the table well formed, provided
/// the current slot has given up the processor.
pub(crate) proof fn lemma_dispatch_inv(t: TaskTable, now: usize)
    requires
        now > 0,
        t.inv(),
        t.status(t.current as int) != TaskStatus::Running,
        t.next_ready() is Some,
    ensures
        t.dispatch(t.next_ready()->0, now).inv(),
        t.dispatch(t.next_ready()->0, now).running(),
{
    lemma_first_ready_from(t, 1);
    let j = t.next_ready()->0;
    let u = t.dispatch(j, now);
    assert forall|i: int| 0 <= i < MAX_APP_NUM && #[trigger] u.status(i) == TaskStatus::Running
        implies i == u.current by {
        if i != j {
            assert(u.status(i) == t.status(i));
        }
    }
    assert forall|i: int| 0 <= i < MAX_APP_NUM implies (i < u.num_app <==> #[trigger] u.status(i)
        != TaskStatus::UnInit) by {
        if i != j {
            assert(u.status(i) == t.status(i));
        }
    }
}

/// When the current slot is `Ready` the scan cannot come up empty: it
/// reaches the current slot last.
proof fn lemma_current_ready_found(t: TaskTable, d: int)
    requires
        t.inv(),
        t.num_app >= 1,
        1 <= d <= t.num_app,
        t.status(t.current as int) == TaskStatus::Ready,
    ensures
        t.first_ready_from(d) is Some,
    decreases t.num_app - d,
{
    if d == t.num_app {
        assert(t.slot_after(d) == t.current) by (nonlinear_arith)
            requires
                d == t.num_app,
                t.current < t.num_app,
                t.slot_after(d) == (t.current + d) % (t.num_app as int),
        ;
    } else if t.status(t.slot_after(d)) != TaskStatus::Ready {
        lemma_current_ready_found(t, d + 1);
    }
}

/// Suspending or exiting the running task keeps the table well formed.
pub(crate) proof fn lemma_mark_inv(t: TaskTable, s: TaskStatus)
    requires
        t.running(),
        s == TaskStatus::Ready || s == TaskStatus::Exited,
    ensures
        t.mark_current(s).inv(),
{
    let u = t.mark_current(s);
    assert forall|i: int| 0 <= i < MAX_APP_NUM && #[trigger] u.status(i) == TaskStatus::Running
        implies i == u.current by {
        assert(u.status(i) == t.status(i));
    }
    assert forall|i: int| 0 <= i < MAX_APP_NUM implies (i < u.num_app <==> #[trigger] u.status(i)
        != TaskStatus::UnInit) by {
        if i != t.current {
            assert(u.status(i) == t.status(i));
        }
    }
}

/// The first dispatch of slot 0 keeps the table well formed.
pub(crate) proof fn lemma_first_dispatch_inv(t: TaskTable, now: usize)
    requires
        now > 0,
        t.inv(),
        t.is_fresh(),
        t.num_app >= 1,
    ensures
        t.dispatch(0, now).running(),
{
    let u = t.dispatch(0, now);
    assert(t.status(0) == TaskStatus::Ready);
    assert forall|i: int| 0 <= i < MAX_APP_NUM && #[trigger] u.status(i) == TaskStatus::Running
        implies i == u.current by {
        if i != 0 {
            assert(u.status(i) == t.status(i));
        }
    }
    assert forall|i: int| 0 <= i < MAX_APP_NUM implies (i < u.num_app <==> #[trigger] u.status(i)
        != TaskStatus::UnInit) by {
        if i != 0 {
            assert(u.status(i) == t.status(i));
        }
    }
}

/// Counting a syscall changes no status.
pub(crate) proof fn lemma_count_syscall_inv(t: TaskTable, id: int)
    requires
        t.running(),
    ensures
        t.count_syscall(id).running(),
{
    let u = t.count_syscall(id);
    assert forall|i: int| 0 <= i < MAX_APP_NUM implies #[trigger] u.status(i) == t.status(i) by {}
}

struct TaskManagerInner {
    tasks: Vec<TaskControlBlock>,
    current_task: usize,
}

/// The scheduler: a fixed-capacity table of task control blocks, the number
/// of populated slots and the index of the current task. Exclusive access to
/// the table is given by `&mut self`.
pub struct TaskManager {
    num_app: usize,
    inner: TaskManagerInner,
}

impl View for TaskManager {
    type V = TaskTable;

    closed spec fn view(&self) -> TaskTable {
        TaskTable {
            num_app: self.num_app as nat,
            current: self.inner.current_task as nat,
            tasks: self.inner.tasks@,
        }
    }
}

impl TaskManager {
    /// Builds the table for the applications whose initial contexts are
    /// `app_cx`, in order: slot `i` is `Ready` with `app_cx[i]` for each
    /// application, every other slot is `UnInit` with the zeroed context, and
    /// slot 0 is current.
    pub fn new(app_cx: &Vec<TaskContext>) -> (r: TaskManager)
        requires
            app_cx.len() <= MAX_APP_NUM,
        ensures
            r@.inv(),
            r@.is_fresh(),
            r@.num_app == app_cx.len(),
            forall|i: int|
                0 <= i < MAX_APP_NUM ==> (#[trigger] r@.tasks[i]).untouched() && if i
                    < app_cx.len() {
                    r@.tasks[i].task_status == TaskStatus::Ready && r@.tasks[i].task_cx
                        == app_cx[i]
                } else {
                    r@.tasks[i].task_status == TaskStatus::UnInit && r@.tasks[i].task_cx.ra == 0
                        && r@.tasks[i].task_cx.sp == 0 && forall|k: int|
                        0 <= k < 12 ==> #[trigger] r@.tasks[i].task_cx.s[k] == 0
                },
    {
        let num_app = app_cx.len();
        let mut tasks: Vec<TaskControlBlock> = Vec::new();
        let mut i: usize = 0;
        while i < MAX_APP_NUM
            invariant
                i <= MAX_APP_NUM,
                num_app == app_cx.len() <= MAX_APP_NUM,
                tasks.len() == i,
                forall|k: int|
                    0 <= k < i ==> (#[trigger] tasks@[k]).untouched() && if k < num_app {
                        tasks@[k].task_status == TaskStatus::Ready && tasks@[k].task_cx
                            == app_cx[k]
                    } else {
                        tasks@[k].task_status == TaskStatus::UnInit && tasks@[k].task_cx.ra == 0
                            && tasks@[k].task_cx.sp == 0 && forall|m: int|
                            0 <= m < 12 ==> #[trigger] tasks@[k].task_cx.s[m] == 0
                    },
            decreases MAX_APP_NUM - i,
        {
            let (task_status, task_cx) = if i < num_app {
                (TaskStatus::Ready, app_cx[i])
            } else {
                (TaskStatus::UnInit, TaskContext::zero_init())
            };
            let tcb = TaskControlBlock {
                task_status,
                task_cx,
                task_start_time: 0,
                task_syscall_times: [0u32; MAX_SYSCALL_NUM],
            };
            tasks.push(tcb);
            i = i + 1;
        }
        TaskManager { num_app, inner: TaskManagerInner { tasks, current_task: 0 } }
    }

    /// Scans slots `current + 1, current + 2, ..., current + num_app`, each
    /// taken modulo `num_app`, and returns the first one that is `Ready`.
    pub fn find_next_task(&self) -> (r: Option<usize>)
        requires
            self@.inv(),
        ensures
            r matches Some(j) ==> self@.next_ready() == Some(j as int),
            r is None ==> self@.next_ready() is None,
    {
        let current = self.inner.current_task;
        let n = self.num_app;
        let mut d: usize = 1;
        while d <= n
            invariant
                1 <= d <= n + 1,
                n == self@.num_app,
                current == self@.current,
                self@.inv(),
                self@.next_ready() == self@.first_ready_from(d as int),
            decreases n + 1 - d,
        {
            let id = (current + d) % n;
            if self.inner.tasks[id].task_status == TaskStatus::Ready {
                return Some(id);
            }
            d = d + 1;
        }
        None
    }

    /// The current task gives up the processor and stays eligible:
    /// `Running` becomes `Ready`.
    pub fn mark_current_suspended(&mut self)
        requires
            old(self)@.running(),
        ensures
            final(self)@ == old(self)@.mark_current(TaskStatus::Ready),
            final(self)@.inv(),
    {
        self.set_current_status(TaskStatus::Ready);
    }

    /// The current task terminates: `Running` becomes `Exited`.
    pub fn mark_current_exited(&mut self)
        requires
            old(self)@.running(),
        ensures
            final(self)@ == old(self)@.mark_current(TaskStatus::Exited),
            final(self)@.inv(),
    {
        self.set_current_status(TaskStatus::Exited);
    }

    fn set_current_status(&mut self, s: TaskStatus)
        requires
            old(self)@.running(),
            s == TaskStatus::Ready || s == TaskStatus::Exited,
        ensures
            final(self)@ == old(self)@.mark_current(s),
            final(self)@.inv(),
    {
        let current = self.inner.current_task;
        let mut tcb = self.inner.tasks[current];
        tcb.task_status = s;
        self.inner.tasks.set(current, tcb);
        proof {
            lemma_mark_inv(old(self)@, s);
        }
    }

    /// Hands the processor to the round-robin choice. When no slot is
    /// `Ready` nothing changes and `None` says the system has no work left.
    /// Otherwise the chosen slot becomes `Running` and current, its start
    /// time is stamped with `now` on its first dispatch, and the returned
    /// switch leads from the previous current slot to it.
    pub fn run_next_task(&mut self, now: usize) -> (r: Option<Switch>)
        requires
            now > 0,
            old(self)@.inv(),
            old(self)@.status(old(self)@.current as int) != TaskStatus::Running,
        ensures
            r is None <==> old(self)@.next_ready() is None,
            r is None ==> final(self)@ == old(self)@,
            r matches Some(sw) ==> {
                &&& old(self)@.next_ready() == Some(sw.to as int)
                &&& sw.from == old(self)@.current
                &&& final(self)@ == old(self)@.dispatch(sw.to as int, now)
                &&& final(self)@.running()
            },
            final(self)@.inv(),
    {
        match self.find_next_task() {
            Some(next) => {
                proof {
                    lemma_dispatch_inv(self@, now);
                }
                let current = self.inner.current_task;
                let mut tcb = self.inner.tasks[next];
                tcb.task_status = TaskStatus::Running;
                if tcb.task_start_time == 0 {
                    tcb.task_start_time = now;
                }
                self.inner.tasks.set(next, tcb);
                self.inner.current_task = next;
                assert(self@ == old(self)@.dispatch(next as int, now));
                Some(Switch { from: current, to: next })
            },
            None => None,
        }
    }

    /// Dispatches slot 0 at kernel start: it becomes `Running` with start
    /// time `now`.
    pub fn run_first_task(&mut self, now: usize)
        requires
            now > 0,
            old(self)@.inv(),
            old(self)@.is_fresh(),
            old(self)@.num_app >= 1,
        ensures
            final(self)@ == old(self)@.dispatch(0, now),
            final(self)@.running(),
    {
        let mut tcb = self.inner.tasks[0];
        tcb.task_status = TaskStatus::Running;
        tcb.task_start_time = now;
        self.inner.tasks.set(0, tcb);
        proof {
            lemma_first_dispatch_inv(old(self)@, now);
            assert(old(self)@.status(0) == TaskStatus::Ready);
            assert(self@.tasks =~= old(self)@.dispatch(0, now).tasks);
        }
    }

    /// Counts one invocation of syscall `syscall_id` for the running task.
    pub fn increase_syscall_time(&mut self, syscall_id: usize)
        requires
            old(self)@.running(),
            syscall_id < MAX_SYSCALL_NUM,
            old(self)@.count(old(self)@.current as int, syscall_id as int) < u32::MAX,
        ensures
            final(self)@ == old(self)@.count_syscall(syscall_id as int),
            final(self)@.running(),
    {
        let current = self.inner.current_task;
        let mut tcb = self.inner.tasks[current];
        let c = tcb.task_syscall_times[syscall_id];
        tcb.task_syscall_times[syscall_id] = c + 1;
        proof {
            let old_tcb = old(self)@.tasks[current as int];
            assert(tcb.task_syscall_times =~= old_tcb.counted(syscall_id as int).task_syscall_times);
        }
        self.inner.tasks.set(current, tcb);
        proof {
            lemma_count_syscall_inv(old(self)@, syscall_id as int);
            assert(self@ == old(self)@.count_syscall(syscall_id as int));
        }
    }

    /// Writes into `ti` what the running task is told about itself at time
    /// `now`: status `Running`, its syscall counters and the time elapsed
    /// since its first dispatch. Returns 0.
    pub fn get_task_info(&self, ti: &mut TaskInfo, now: usize) -> (r: isize)
        requires
            self@.inv(),
            self@.start_time(self@.current as int) <= now,
        ensures
            r == 0,
            *final(ti) == self@.info(now),
    {
        let current = self.inner.current_task;
        let task_start_time = self.inner.tasks[current].task_start_time;
        let syscall_times = self.inner.tasks[current].task_syscall_times;
        *ti = TaskInfo { status: TaskStatus::Running, syscall_times, time: now - task_start_time };
        0
    }
}

impl TaskManager {
    /// Number of populated slots.
    pub fn num_app(&self) -> (r: usize)
        ensures
            r == self@.num_app,
    {
        self.num_app
    }

    /// Index of the current slot.
    pub fn current_task(&self) -> (r: usize)
        ensures
            r == self@.current,
    {
        self.inner.current_task
    }

    /// A copy of the control block in slot `i`.
    pub fn task(&self, i: usize) -> (r: TaskControlBlock)
        requires
            self@.inv(),
            i < MAX_APP_NUM,
        ensures
            r == self@.tasks[i as int],
    {
        self.inner.tasks[i]
    }

    /// The saved context of slot `i`, as the target or source of a switch.
    pub fn task_cx_mut(&mut self, i: usize) -> (r: &mut TaskContext)
        requires
            old(self)@.inv(),
            i < MAX_APP_NUM,
        ensures
            *r == old(self)@.tasks[i as int].task_cx,
            final(self)@ == (TaskTable {
                tasks: old(self)@.tasks.update(
                    i as int,
                    TaskControlBlock { task_cx: *final(r), ..old(self)@.tasks[i as int] },
                ),
                ..old(self)@
            }),
    {
        &mut self.inner.tasks[i].task_cx
    }
}

/// Starts the kernel's first task: slot 0 becomes `Running` at `now`.
pub fn run_first_task(tm: &mut TaskManager, now: usize)
    requires
        now > 0,
        old(tm)@.inv(),
        old(tm)@.is_fresh(),
        old(tm)@.num_app >= 1,
    ensures
        final(tm)@ == old(tm)@.dispatch(0, now),
        final(tm)@.running(),
{
    tm.run_first_task(now);
}

/// The running task yields: it becomes `Ready` and the round-robin choice is
/// dispatched. That choice always exists, since the yielding slot itself is
/// `Ready`, scanned last.
pub fn suspend_current_and_run_next(tm: &mut TaskManager, now: usize) -> (r: Switch)
    requires
        now > 0,
        old(tm)@.running(),
    ensures
        old(tm)@.mark_current(TaskStatus::Ready).next_ready() == Some(r.to as int),
        r.from == old(tm)@.current,
        final(tm)@ == old(tm)@.mark_current(TaskStatus::Ready).dispatch(r.to as int, now),
        final(tm)@.running(),
{
    tm.mark_current_suspended();
    proof {
        lemma_current_ready_found(tm@, 1);
    }
    tm.run_next_task(now).unwrap()
}

/// The running task terminates: it becomes `Exited` and the round-robin
/// choice is dispatched. `None` means that no task is left to run; the
/// table then keeps the exited slot as current.
pub fn exit_current_and_run_next(tm: &mut TaskManager, now: usize) -> (r: Option<Switch>)
    requires
        now > 0,
        old(tm)@.running(),
    ensures
        r is None <==> old(tm)@.mark_current(TaskStatus::Exited).next_ready() is None,
        r is None ==> final(tm)@ == old(tm)@.mark_current(TaskStatus::Exited),
        r matches Some(sw) ==> {
            &&& old(tm)@.mark_current(TaskStatus::Exited).next_ready() == Some(sw.to as int)
            &&& sw.from == old(tm)@.current
            &&& final(tm)@ == old(tm)@.mark_current(TaskStatus::Exited).dispatch(sw.to as int, now)
            &&& final(tm)@.running()
        },
        final(tm)@.inv(),
{
    tm.mark_current_exited();
    tm.run_next_task(now)
}

/// Counts one invocation of syscall `syscall_id` for the running task.
pub fn increase_syscall_time(tm: &mut TaskManager, syscall_id: usize)
    requires
        old(tm)@.running(),
        syscall_id < MAX_SYSCALL_NUM,
        old(tm)@.count(old(tm)@.current as int, syscall_id as int) < u32::MAX,
    ensures
        final(tm)@ == old(tm)@.count_syscall(syscall_id as int),
        final(tm)@.running(),
{
    tm.increase_syscall_time(syscall_id);
}

/// Fills `ti` with the running task's view of itself at time `now`.
/// Returns 0, the success code.
pub fn get_task_info(tm: &TaskManager, ti: &mut TaskInfo, now: usize) -> (r: isize)
    requires
        tm@.inv(),
        tm@.start_time(tm@.current as int) <= now,
    ensures
        r == 0,
        *final(ti) == tm@.info(now),
{
    tm.get_task_info(ti, now)
}

} // verus!
