use os3::{
    exit_current_and_run_next, get_task_info, increase_syscall_time, run_first_task,
    suspend_current_and_run_next, sys_yield, Switch, TaskContext, TaskInfo, TaskManager,
    TaskStatus, MAX_APP_NUM, MAX_SYSCALL_NUM,
};

fn contexts(n: usize) -> Vec<TaskContext> {
    (0..n).map(|i| TaskContext::goto_restore(0x8020_0000, 0x1000 * (i + 1))).collect()
}

fn manager(n: usize) -> TaskManager {
    TaskManager::new(&contexts(n))
}

fn status(tm: &TaskManager, i: usize) -> TaskStatus {
    tm.task(i).task_status
}

#[test]
fn new_populates_exactly_the_loaded_slots() {
    let tm = manager(3);
    assert_eq!(tm.num_app(), 3);
    assert_eq!(tm.current_task(), 0);
    for i in 0..MAX_APP_NUM {
        let tcb = tm.task(i);
        let expected = if i < 3 { TaskStatus::Ready } else { TaskStatus::UnInit };
        assert_eq!(tcb.task_status, expected);
        assert_eq!(tcb.task_start_time, 0);
        assert!(tcb.task_syscall_times.iter().all(|&c| c == 0));
    }
    assert_eq!(tm.task(1).task_cx.sp, 0x2000);
    assert_eq!(tm.task(1).task_cx.ra, 0x8020_0000);
    assert_eq!(tm.task(5).task_cx.sp, 0);
}

#[test]
fn new_at_full_capacity() {
    let tm = manager(MAX_APP_NUM);
    for i in 0..MAX_APP_NUM {
        assert_eq!(status(&tm, i), TaskStatus::Ready);
    }
}

#[test]
fn empty_table_has_nothing_to_run() {
    let tm = manager(0);
    assert_eq!(tm.num_app(), 0);
    assert_eq!(tm.find_next_task(), None);
    assert_eq!(status(&tm, 0), TaskStatus::UnInit);
}

#[test]
fn status_equality_distinguishes_all_variants() {
    let all = [TaskStatus::UnInit, TaskStatus::Ready, TaskStatus::Running, TaskStatus::Exited];
    for (a, x) in all.iter().enumerate() {
        for (b, y) in all.iter().enumerate() {
            assert_eq!(a == b, x == y);
        }
    }
}

#[test]
fn contexts_are_built_as_asked() {
    let z = TaskContext::zero_init();
    assert_eq!((z.ra, z.sp), (0, 0));
    assert!(z.s.iter().all(|&r| r == 0));
    let c = TaskContext::goto_restore(7, 9);
    assert_eq!((c.ra, c.sp), (7, 9));
    assert!(c.s.iter().all(|&r| r == 0));
}

#[test]
fn first_task_is_slot_zero() {
    let mut tm = manager(3);
    run_first_task(&mut tm, 100);
    assert_eq!(status(&tm, 0), TaskStatus::Running);
    assert_eq!(tm.task(0).task_start_time, 100);
    assert_eq!(status(&tm, 1), TaskStatus::Ready);
    assert_eq!(tm.task(1).task_start_time, 0);
    assert_eq!(tm.find_next_task(), Some(1));
}

#[test]
fn round_robin_skips_exited_and_wraps() {
    let mut tm = manager(4);
    run_first_task(&mut tm, 1);
    // 0 exits, 1 runs; 1 yields, 2 runs; 2 exits, 3 runs.
    assert_eq!(exit_current_and_run_next(&mut tm, 2), Some(Switch { from: 0, to: 1 }));
    assert_eq!(suspend_current_and_run_next(&mut tm, 3), Switch { from: 1, to: 2 });
    assert_eq!(exit_current_and_run_next(&mut tm, 4), Some(Switch { from: 2, to: 3 }));
    // From 3 the scan is 0 (exited), 1 (ready).
    assert_eq!(tm.find_next_task(), Some(1));
    assert_eq!(suspend_current_and_run_next(&mut tm, 5), Switch { from: 3, to: 1 });
    // From 1 the scan is 2 (exited), 3 (ready).
    assert_eq!(tm.find_next_task(), Some(3));
}

#[test]
fn scan_returns_current_last() {
    let mut tm = manager(3);
    run_first_task(&mut tm, 1);
    exit_current_and_run_next(&mut tm, 2);
    exit_current_and_run_next(&mut tm, 3);
    assert_eq!(tm.current_task(), 2);
    tm.mark_current_suspended();
    assert_eq!(tm.find_next_task(), Some(2));
    tm.mark_current_exited();
    assert_eq!(tm.find_next_task(), None);
}

#[test]
fn run_next_task_without_ready_slot_changes_nothing() {
    let mut tm = manager(1);
    run_first_task(&mut tm, 1);
    tm.mark_current_exited();
    assert_eq!(tm.run_next_task(9), None);
    assert_eq!(tm.current_task(), 0);
    assert_eq!(status(&tm, 0), TaskStatus::Exited);
    assert_eq!(tm.task(0).task_start_time, 1);
}

#[test]
fn scenario_three_applications() {
    let mut tm = manager(3);
    run_first_task(&mut tm, 10);
    assert_eq!(status(&tm, 0), TaskStatus::Running);

    let sw = suspend_current_and_run_next(&mut tm, 20);
    assert_eq!(sw, Switch { from: 0, to: 1 });
    assert_eq!(status(&tm, 0), TaskStatus::Ready);
    assert_eq!(status(&tm, 1), TaskStatus::Running);

    let sw = exit_current_and_run_next(&mut tm, 30);
    assert_eq!(sw, Some(Switch { from: 1, to: 2 }));
    assert_eq!(status(&tm, 1), TaskStatus::Exited);
    assert_eq!(status(&tm, 2), TaskStatus::Running);

    let sw = exit_current_and_run_next(&mut tm, 40);
    assert_eq!(sw, Some(Switch { from: 2, to: 0 }));
    assert_eq!(status(&tm, 2), TaskStatus::Exited);
    assert_eq!(status(&tm, 0), TaskStatus::Running);

    let sw = exit_current_and_run_next(&mut tm, 50);
    assert_eq!(sw, None);
    for i in 0..3 {
        assert_eq!(status(&tm, i), TaskStatus::Exited);
    }
    assert_eq!(tm.task(0).task_start_time, 10);
    assert_eq!(tm.task(1).task_start_time, 20);
    assert_eq!(tm.task(2).task_start_time, 30);
}

#[test]
fn scenario_single_application() {
    let mut tm = manager(1);
    run_first_task(&mut tm, 5);
    assert_eq!(status(&tm, 0), TaskStatus::Running);
    let sw = suspend_current_and_run_next(&mut tm, 6);
    assert_eq!(sw, Switch { from: 0, to: 0 });
    assert_eq!(status(&tm, 0), TaskStatus::Running);
    assert_eq!(tm.task(0).task_start_time, 5);
    assert_eq!(exit_current_and_run_next(&mut tm, 7), None);
    assert_eq!(status(&tm, 0), TaskStatus::Exited);
}

#[test]
fn start_time_is_stamped_once() {
    let mut tm = manager(2);
    run_first_task(&mut tm, 5);
    suspend_current_and_run_next(&mut tm, 7);
    assert_eq!(tm.task(1).task_start_time, 7);
    suspend_current_and_run_next(&mut tm, 9);
    assert_eq!(tm.current_task(), 0);
    assert_eq!(tm.task(0).task_start_time, 5);
    suspend_current_and_run_next(&mut tm, 11);
    assert_eq!(tm.task(1).task_start_time, 7);
}

#[test]
fn exited_slot_is_never_scheduled_again() {
    let mut tm = manager(2);
    run_first_task(&mut tm, 1);
    exit_current_and_run_next(&mut tm, 2);
    for now in 3..10 {
        let sw = suspend_current_and_run_next(&mut tm, now);
        assert_eq!(sw, Switch { from: 1, to: 1 });
        assert_eq!(status(&tm, 0), TaskStatus::Exited);
    }
}

#[test]
fn syscall_counts_go_to_the_running_slot() {
    let mut tm = manager(2);
    run_first_task(&mut tm, 1);
    increase_syscall_time(&mut tm, 64);
    increase_syscall_time(&mut tm, 64);
    increase_syscall_time(&mut tm, 93);
    suspend_current_and_run_next(&mut tm, 2);
    tm.increase_syscall_time(MAX_SYSCALL_NUM - 1);
    assert_eq!(tm.task(0).task_syscall_times[64], 2);
    assert_eq!(tm.task(0).task_syscall_times[93], 1);
    assert_eq!(tm.task(0).task_syscall_times[MAX_SYSCALL_NUM - 1], 0);
    assert_eq!(tm.task(1).task_syscall_times[64], 0);
    assert_eq!(tm.task(1).task_syscall_times[MAX_SYSCALL_NUM - 1], 1);
    let total: u32 = tm.task(0).task_syscall_times.iter().sum();
    assert_eq!(total, 3);
}

#[test]
fn task_info_reports_the_running_slot() {
    let mut tm = manager(2);
    run_first_task(&mut tm, 1000);
    suspend_current_and_run_next(&mut tm, 2000);
    increase_syscall_time(&mut tm, 410);
    increase_syscall_time(&mut tm, 169);
    increase_syscall_time(&mut tm, 410);
    let mut ti = TaskInfo::zero_init();
    assert_eq!(get_task_info(&tm, &mut ti, 2500), 0);
    assert_eq!(ti.status, TaskStatus::Running);
    assert_eq!(ti.syscall_times[410], 2);
    assert_eq!(ti.syscall_times[169], 1);
    assert_eq!(ti.syscall_times[64], 0);
    assert_eq!(ti.time, 500);
    let mut later = TaskInfo::zero_init();
    assert_eq!(tm.get_task_info(&mut later, 2600), 0);
    assert_eq!(later.time, 600);
    assert!(later.time >= ti.time);
}

#[test]
fn task_info_at_dispatch_time_is_zero() {
    let mut tm = manager(1);
    run_first_task(&mut tm, 42);
    let mut ti = TaskInfo::zero_init();
    get_task_info(&tm, &mut ti, 42);
    assert_eq!(ti.time, 0);
    assert_eq!(ti.status, TaskStatus::Running);
}

#[test]
fn yield_returns_zero_and_the_switch() {
    let mut tm = manager(3);
    run_first_task(&mut tm, 1);
    let (code, sw) = sys_yield(&mut tm, 2);
    assert_eq!(code, 0);
    assert_eq!(sw, Switch { from: 0, to: 1 });
    assert_eq!(status(&tm, 0), TaskStatus::Ready);
    assert_eq!(status(&tm, 1), TaskStatus::Running);
}

#[test]
fn saved_context_is_written_into_the_slot() {
    let mut tm = manager(2);
    {
        let cx = tm.task_cx_mut(1);
        assert_eq!(cx.sp, 0x2000);
        cx.ra = 0xdead;
        cx.s[3] = 17;
    }
    assert_eq!(tm.task(1).task_cx.ra, 0xdead);
    assert_eq!(tm.task(1).task_cx.s[3], 17);
    assert_eq!(tm.task(0).task_cx.sp, 0x1000);
    assert_eq!(status(&tm, 1), TaskStatus::Ready);
}

#[test]
fn empty_slots_hold_the_zeroed_context() {
    let tm = manager(2);
    for i in 2..MAX_APP_NUM {
        let cx = tm.task(i).task_cx;
        assert_eq!((cx.ra, cx.sp), (0, 0));
        assert!(cx.s.iter().all(|&r| r == 0));
    }
}

#[test]
fn lone_task_keeps_its_start_time_across_yields() {
    let mut tm = manager(1);
    run_first_task(&mut tm, 1);
    for now in 2..6 {
        assert_eq!(sys_yield(&mut tm, now), (0, Switch { from: 0, to: 0 }));
        assert_eq!(tm.task(0).task_start_time, 1);
    }
}
