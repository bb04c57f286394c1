use syscall_core::config::{
    MAX_SYSCALL_NUM, MICROS_PER_MILLI, MICROS_PER_SEC, SYSCALL_EXIT, SYSCALL_GET_TIME,
    SYSCALL_TASK_INFO, SYSCALL_WRITE, SYSCALL_YIELD, TRACKED_SYSCALLS,
};
use syscall_core::ident::SyscallId;
use syscall_core::process::{sys_exit, sys_get_time, sys_task_info, sys_yield, TaskInfo, TimeVal};
use syscall_core::store::{Next, TaskStore};
use syscall_core::task::{SyscallCounters, TaskRecord, TaskStatus};

const ALL: [SyscallId; 5] = [
    SyscallId::Write,
    SyscallId::Exit,
    SyscallId::Yield,
    SyscallId::GetTime,
    SyscallId::TaskInfo,
];

#[test]
fn constants_follow_the_trap_convention() {
    assert_eq!(SYSCALL_WRITE, 64);
    assert_eq!(SYSCALL_EXIT, 93);
    assert_eq!(SYSCALL_YIELD, 124);
    assert_eq!(SYSCALL_GET_TIME, 169);
    assert_eq!(SYSCALL_TASK_INFO, 410);
    assert_eq!(MAX_SYSCALL_NUM, 500);
    assert_eq!(TRACKED_SYSCALLS, 5);
    assert_eq!(MICROS_PER_SEC, 1_000_000);
    assert_eq!(MICROS_PER_MILLI, 1_000);
}

#[test]
fn numbers_and_identities_round_trip() {
    assert_eq!(SyscallId::from_number(64), Some(SyscallId::Write));
    assert_eq!(SyscallId::from_number(93), Some(SyscallId::Exit));
    assert_eq!(SyscallId::from_number(124), Some(SyscallId::Yield));
    assert_eq!(SyscallId::from_number(169), Some(SyscallId::GetTime));
    assert_eq!(SyscallId::from_number(410), Some(SyscallId::TaskInfo));
    for id in ALL {
        assert_eq!(SyscallId::from_number(id.number()), Some(id));
        assert_eq!(SyscallId::from_slot(id.slot()), Some(id));
        assert!(id.number() < MAX_SYSCALL_NUM);
        assert!(id.slot() < TRACKED_SYSCALLS);
    }
    let mut recognized = 0;
    for n in 0..2 * MAX_SYSCALL_NUM {
        if let Some(id) = SyscallId::from_number(n) {
            assert_eq!(id.number(), n);
            recognized += 1;
        }
    }
    assert_eq!(recognized, 5);
    assert_eq!(SyscallId::from_number(usize::MAX), None);
}

#[test]
fn slots_are_in_table_order() {
    assert_eq!(SyscallId::Write.slot(), 0);
    assert_eq!(SyscallId::Exit.slot(), 1);
    assert_eq!(SyscallId::Yield.slot(), 2);
    assert_eq!(SyscallId::GetTime.slot(), 3);
    assert_eq!(SyscallId::TaskInfo.slot(), 4);
    assert_eq!(SyscallId::from_slot(5), None);
    assert_eq!(SyscallId::from_slot(usize::MAX), None);
}

#[test]
fn counters_start_empty_and_grow_by_one() {
    let mut counters = SyscallCounters::new();
    for id in ALL {
        assert_eq!(counters.get(id), 0);
    }
    counters.record(SyscallId::Yield);
    counters.record(SyscallId::Yield);
    counters.record(SyscallId::TaskInfo);
    assert_eq!(counters.get(SyscallId::Yield), 2);
    assert_eq!(counters.get(SyscallId::TaskInfo), 1);
    assert_eq!(counters.get(SyscallId::Write), 0);
    assert_eq!(counters.get(SyscallId::Exit), 0);
    assert_eq!(counters.get(SyscallId::GetTime), 0);
    assert_eq!(counters.slots, [0, 0, 2, 0, 1]);
}

#[test]
fn counter_reaches_the_last_value() {
    let mut counters = SyscallCounters::new();
    counters.slots[3] = u32::MAX - 1;
    counters.record(SyscallId::GetTime);
    assert_eq!(counters.get(SyscallId::GetTime), u32::MAX);
}

#[test]
fn new_record_is_ready_and_empty() {
    let rec = TaskRecord::new();
    assert_eq!(rec.status, TaskStatus::Ready);
    assert_eq!(rec.start_time, None);
    assert_eq!(rec.syscall_counters.slots, [0; 5]);
}

#[test]
fn new_store_runs_the_first_task() {
    let store = TaskStore::new(3, 77);
    assert_eq!(store.len(), 3);
    assert_eq!(store.current_task(), 0);
    assert!(store.is_running());
    assert_eq!(store.current_task_status(), TaskStatus::Running);
    assert_eq!(store.current_task_start_time(), 77);
    assert_eq!(store.current_task_syscall_counts().slots, [0; 5]);
    for i in 1..3 {
        let rec = store.task(i);
        assert_eq!(rec.status, TaskStatus::Ready);
        assert_eq!(rec.start_time, None);
        assert_eq!(rec.syscall_counters.slots, [0; 5]);
    }
}

#[test]
fn count_current_touches_the_current_task_only() {
    let mut store = TaskStore::new(2, 0);
    store.count_current(SyscallId::Write);
    store.count_current(SyscallId::Write);
    assert_eq!(store.task(0).syscall_counters.slots, [2, 0, 0, 0, 0]);
    assert_eq!(store.task(1).syscall_counters.slots, [0; 5]);
    assert_eq!(store.current_task(), 0);
    assert_eq!(store.task(0).status, TaskStatus::Running);
}

#[test]
fn turns_go_round_in_a_circle() {
    let mut store = TaskStore::new(3, 0);
    let mut order = Vec::new();
    for step in 0..7u64 {
        assert_eq!(store.find_next(), Some((store.current_task() + 1) % 3));
        order.push(store.suspend_current_and_run_next(step + 1));
    }
    assert_eq!(order, vec![1, 2, 0, 1, 2, 0, 1]);
}

#[test]
fn turns_skip_exited_tasks() {
    let mut store = TaskStore::new(4, 0);
    assert_eq!(store.suspend_current_and_run_next(1), 1);
    assert_eq!(store.exit_current_and_run_next(2), Next::Run(2));
    assert_eq!(store.suspend_current_and_run_next(3), 3);
    assert_eq!(store.suspend_current_and_run_next(4), 0);
    // Task 1 is gone: after 0 comes 2.
    assert_eq!(store.find_next(), Some(2));
    assert_eq!(store.suspend_current_and_run_next(5), 2);
    assert_eq!(store.exit_current_and_run_next(6), Next::Run(3));
    assert_eq!(store.exit_current_and_run_next(7), Next::Run(0));
    assert_eq!(store.find_next(), None);
    assert_eq!(store.exit_current_and_run_next(8), Next::Halt);
    assert!(!store.is_running());
}

#[test]
fn a_lone_task_that_yields_runs_on() {
    let mut store = TaskStore::new(1, 3);
    assert_eq!(store.find_next(), None);
    assert_eq!(store.suspend_current_and_run_next(10), 0);
    assert!(store.is_running());
    assert_eq!(store.task(0).status, TaskStatus::Running);
    assert_eq!(store.task(0).start_time, Some(3));
}

#[test]
fn start_time_is_taken_once() {
    let mut store = TaskStore::new(2, 100);
    assert_eq!(store.task(1).start_time, None);
    store.suspend_current_and_run_next(250);
    assert_eq!(store.task(1).start_time, Some(250));
    assert_eq!(store.current_task_start_time(), 250);
    store.suspend_current_and_run_next(400);
    assert_eq!(store.current_task(), 0);
    assert_eq!(store.current_task_start_time(), 100);
    store.suspend_current_and_run_next(900);
    assert_eq!(store.current_task_start_time(), 250);
}

#[test]
fn a_task_may_start_at_time_zero() {
    let mut store = TaskStore::new(2, 0);
    store.suspend_current_and_run_next(0);
    assert_eq!(store.task(1).start_time, Some(0));
    store.suspend_current_and_run_next(5);
    store.suspend_current_and_run_next(9);
    assert_eq!(store.task(0).start_time, Some(0));
    assert_eq!(store.task(1).start_time, Some(0));
}

#[test]
fn sys_exit_ends_the_current_task() {
    let mut store = TaskStore::new(2, 0);
    let next = sys_exit(&mut store, 42, 5);
    assert_eq!(next, Next::Run(1));
    assert_eq!(store.task(0).status, TaskStatus::Exited);
    assert_eq!(store.task(1).status, TaskStatus::Running);
    assert_eq!(store.current_task(), 1);
    // The handler itself counts nothing: that is the dispatcher's part.
    assert_eq!(store.task(0).syscall_counters.slots, [0; 5]);
    let next = sys_exit(&mut store, -3, 6);
    assert_eq!(next, Next::Halt);
    assert!(!store.is_running());
}

#[test]
fn sys_yield_returns_zero_and_switches() {
    let mut store = TaskStore::new(2, 0);
    assert_eq!(sys_yield(&mut store, 5), 0);
    assert_eq!(store.current_task(), 1);
    assert_eq!(store.task(0).status, TaskStatus::Ready);
    assert_eq!(store.task(1).status, TaskStatus::Running);
    assert_eq!(sys_yield(&mut store, 6), 0);
    assert_eq!(store.current_task(), 0);
    assert_eq!(store.task(0).status, TaskStatus::Running);
    assert_eq!(store.task(1).status, TaskStatus::Ready);
}

#[test]
fn sys_get_time_splits_the_reading() {
    let cases: [(u64, usize, usize); 7] = [
        (0, 0, 0),
        (1, 0, 1),
        (999_999, 0, 999_999),
        (1_000_000, 1, 0),
        (1_000_001, 1, 1),
        (3_141_592, 3, 141_592),
        (4_294_967_295_999_999, 4_294_967_295, 999_999),
    ];
    for (now, sec, usec) in cases {
        let mut ts = TimeVal { sec: 11, usec: 22 };
        assert_eq!(sys_get_time(&mut ts, 0, now), 0);
        assert_eq!(ts, TimeVal { sec, usec });
    }
}

#[test]
fn sys_get_time_ignores_the_time_zone() {
    let mut a = TimeVal::new();
    let mut b = TimeVal::new();
    assert_eq!(a, TimeVal { sec: 0, usec: 0 });
    sys_get_time(&mut a, 0, 12_345_678);
    sys_get_time(&mut b, 0xffff, 12_345_678);
    assert_eq!(a, b);
    assert_eq!(a, TimeVal { sec: 12, usec: 345_678 });
}

#[test]
fn sys_task_info_reports_the_current_task() {
    let mut store = TaskStore::new(2, 1_000);
    store.count_current(SyscallId::Write);
    store.count_current(SyscallId::Write);
    store.count_current(SyscallId::GetTime);
    let mut ti = TaskInfo::new();
    assert_eq!(ti.status, TaskStatus::Ready);
    assert_eq!(ti.time, 0);
    assert!(ti.syscall_times.iter().all(|n| *n == 0));
    assert_eq!(sys_task_info(&mut ti, &store, 5_999), 0);
    assert_eq!(ti.status, TaskStatus::Running);
    assert_eq!(ti.time, 4);
    assert_eq!(ti.syscall_times[SYSCALL_WRITE], 2);
    assert_eq!(ti.syscall_times[SYSCALL_GET_TIME], 1);
    assert_eq!(ti.syscall_times[SYSCALL_EXIT], 0);
    assert_eq!(ti.syscall_times[SYSCALL_YIELD], 0);
    // Without the dispatcher the report's own call is not counted.
    assert_eq!(ti.syscall_times[SYSCALL_TASK_INFO], 0);
    let total: u32 = ti.syscall_times.iter().sum();
    assert_eq!(total, 3);
    // The store is only read.
    assert_eq!(store.task(0).syscall_counters.slots, [2, 0, 0, 1, 0]);
}

#[test]
fn sys_task_info_overwrites_an_old_report() {
    let mut store = TaskStore::new(2, 0);
    store.count_current(SyscallId::Yield);
    let mut ti = TaskInfo::new();
    sys_task_info(&mut ti, &store, 9_000);
    assert_eq!(ti.syscall_times[SYSCALL_YIELD], 1);
    assert_eq!(ti.time, 9);
    // The second task has counted nothing and started later.
    store.suspend_current_and_run_next(10_000);
    sys_task_info(&mut ti, &store, 10_999);
    assert_eq!(ti.syscall_times[SYSCALL_YIELD], 0);
    assert_eq!(ti.time, 0);
    assert_eq!(ti.status, TaskStatus::Running);
}

#[test]
fn elapsed_time_rounds_down_to_milliseconds() {
    let store = TaskStore::new(1, 2_000);
    let cases: [(u64, usize); 6] =
        [(2_000, 0), (2_999, 0), (3_000, 1), (3_001, 1), (1_002_000, 1_000), (61_001_999, 60_999)];
    for (now, ms) in cases {
        let mut ti = TaskInfo::new();
        sys_task_info(&mut ti, &store, now);
        assert_eq!(ti.time, ms);
    }
}
