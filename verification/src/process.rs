//! The process system calls: `exit`, `yield`, `get_time` and `task_info`.
//!
//! Each handler gets the clock reading of the moment as an argument, and
//! writes its answer through a reference that the caller has validated.

use vstd::prelude::*;
use crate::config::{MAX_SYSCALL_NUM, MICROS_PER_MILLI, MICROS_PER_SEC, TRACKED_SYSCALLS};
use crate::ident::SyscallId;
use crate::store::{current_after, handed_on, next_of, none_ready, with_status, Next, TaskStore};
use crate::task::{SyscallCounters, TaskStatus};

verus! {

/// A point in time as whole seconds and the microseconds past them.
#[derive(Clone, Copy, Debug, PartialEq, Eq, Structural)]
pub struct TimeVal {
    pub sec: usize,
    pub usec: usize,
}

impl TimeVal {
    /// The microseconds that this value stands for.
    pub open spec fn total_micros(self) -> int {
        self.sec * MICROS_PER_SEC + self.usec
    }

    /// The value that stands for `now` microseconds.
    pub open spec fn of_micros(now: u64) -> TimeVal {
        TimeVal {
            sec: (now / MICROS_PER_SEC) as usize,
            usec: (now % MICROS_PER_SEC) as usize,
        }
    }

    /// Whether the seconds of `now` fit a machine word.
    pub open spec fn fits(now: u64) -> bool {
        now / MICROS_PER_SEC <= usize::MAX
    }

    /// The zero point in time.
    pub fn new() -> (tv: TimeVal)
        ensures
            tv.sec == 0,
            tv.usec == 0,
    {
        TimeVal { sec: 0, usec: 0 }
    }

    /// Splitting a clock reading loses nothing: the parts add up to the
    /// reading, and the microsecond part stays below one second.
    pub proof fn lemma_of_micros(now: u64)
        requires
            Self::fits(now),
        ensures
            Self::of_micros(now).total_micros() == now,
            Self::of_micros(now).usec < MICROS_PER_SEC,
    {
    }

    /// A later clock reading never gives an earlier time: of two readings
    /// taken one after the other, the second one's total is at least the
    /// first one's.
    pub proof fn lemma_get_time_monotone(first: u64, second: u64)
        requires
            first <= second,
            Self::fits(first),
            Self::fits(second),
        ensures
            Self::of_micros(first).total_micros() <= Self::of_micros(second).total_micros(),
    {
        Self::lemma_of_micros(first);
        Self::lemma_of_micros(second);
    }
}

/// The whole milliseconds between `start` and `now`.
pub open spec fn elapsed_ms(start: u64, now: u64) -> int {
    (now - start) / (MICROS_PER_MILLI as int)
}

/// What the table of a report holds under the number `n`: the count of the
/// call with that number, and zero where no accounted call has it.
pub open spec fn reported(counters: SyscallCounters, n: int) -> nat {
    if 0 <= n < MAX_SYSCALL_NUM {
        match SyscallId::spec_from_number(n as usize) {
            Some(id) => counters.count(id),
            None => 0,
        }
    } else {
        0
    }
}

/// The running time that a task is told grows with the clock: of two
/// readings taken one after the other, the second gives at least as many
/// milliseconds as the first, and never a negative number.
pub proof fn lemma_elapsed_monotone(start: u64, first: u64, second: u64)
    requires
        start <= first <= second,
    ensures
        0 <= elapsed_ms(start, first) <= elapsed_ms(start, second),
{
}

/// A task's report on itself.
#[derive(Clone, Copy, Debug)]
pub struct TaskInfo {
    pub status: TaskStatus,
    /// Invocation counts by system-call number.
    pub syscall_times: [u32; MAX_SYSCALL_NUM],
    /// Milliseconds since the task first ran.
    pub time: usize,
}

impl TaskInfo {
    /// The report is the one that a task with `status`, the counters
    /// `counters` and the start time `start` gets at time `now`.
    pub open spec fn is_snapshot(
        self,
        status: TaskStatus,
        counters: SyscallCounters,
        start: u64,
        now: u64,
    ) -> bool {
        &&& self.status == status
        &&& forall|n: int|
            0 <= n < MAX_SYSCALL_NUM ==> #[trigger] self.syscall_times@[n] == reported(
                counters,
                n,
            )
        &&& self.time == elapsed_ms(start, now)
    }

    /// An empty report: nothing counted, no time passed.
    pub fn new() -> (ti: TaskInfo)
        ensures
            ti.status is Ready,
            ti.time == 0,
            forall|n: int| 0 <= n < MAX_SYSCALL_NUM ==> #[trigger] ti.syscall_times@[n] == 0,
    {
        TaskInfo { status: TaskStatus::Ready, syscall_times: [0u32; MAX_SYSCALL_NUM], time: 0 }
    }
}

/// The current task ends, and the processor goes to the next ready task.
/// The caller never gets the processor back: the answer says who runs
/// instead, or that the machine stops because no task is left. What becomes
/// of `exit_code` is up to whoever keeps the kernel's log.
pub fn sys_exit(store: &mut TaskStore, exit_code: i32, now: u64) -> (next: Next)
    requires
        old(store).wf(),
        old(store).running(),
    ensures
        final(store).wf(),
        final(store)@ == handed_on(
            with_status(old(store)@, old(store).current(), TaskStatus::Exited),
            old(store).current(),
            now,
        ),
        final(store).current() == current_after(
            with_status(old(store)@, old(store).current(), TaskStatus::Exited),
            old(store).current(),
        ),
        next == next_of(
            with_status(old(store)@, old(store).current(), TaskStatus::Exited),
            old(store).current(),
        ),
        final(store)@[old(store).current()].status is Exited,
        next is Run <==> final(store).running(),
        next is Halt <==> none_ready(old(store)@),
{
    store.exit_current_and_run_next(now)
}

/// The current task gives up the rest of its turn. It is ready again at
/// once, and runs on when its turn comes; the answer, always 0, is what it
/// then sees.
pub fn sys_yield(store: &mut TaskStore, now: u64) -> (status: isize)
    requires
        old(store).wf(),
        old(store).running(),
    ensures
        status == 0,
        final(store).wf(),
        final(store).running(),
        final(store)@ == handed_on(
            with_status(old(store)@, old(store).current(), TaskStatus::Ready),
            old(store).current(),
            now,
        ),
        final(store).current() == current_after(
            with_status(old(store)@, old(store).current(), TaskStatus::Ready),
            old(store).current(),
        ),
{
    store.suspend_current_and_run_next(now);
    0
}

/// Writes the clock reading `now`, split into seconds and microseconds, to
/// `ts`. The time zone `_tz` has no effect. The answer is always 0.
pub fn sys_get_time(ts: &mut TimeVal, _tz: usize, now: u64) -> (status: isize)
    requires
        TimeVal::fits(now),
    ensures
        status == 0,
        *final(ts) == TimeVal::of_micros(now),
        final(ts).total_micros() == now,
        final(ts).usec < MICROS_PER_SEC,
{
    *ts = TimeVal {
        sec: (now / MICROS_PER_SEC) as usize,
        usec: (now % MICROS_PER_SEC) as usize,
    };
    0
}

/// Writes to `ti` the current task's status, its invocation counts under
/// the numbers of their calls, and the milliseconds since it first ran. The
/// answer is always 0.
pub fn sys_task_info(ti: &mut TaskInfo, store: &TaskStore, now: u64) -> (status: isize)
    requires
        store.wf(),
        store.current_record().start_time matches Some(start) && start <= now && elapsed_ms(
            start,
            now,
        ) <= usize::MAX,
    ensures
        status == 0,
        final(ti).is_snapshot(
            store.current_record().status,
            store.current_record().syscall_counters,
            store.current_record().start_time->Some_0,
            now,
        ),
{
    let counts: &SyscallCounters = store.current_task_syscall_counts();
    let mut syscall_times: [u32; MAX_SYSCALL_NUM] = [0u32; MAX_SYSCALL_NUM];
    let mut i: usize = 0;
    while i < TRACKED_SYSCALLS
        invariant
            i <= TRACKED_SYSCALLS,
            forall|n: int|
                0 <= n < MAX_SYSCALL_NUM ==> #[trigger] syscall_times@[n] == (
                match SyscallId::spec_from_number(n as usize) {
                    Some(id) => if id.spec_slot() < i {
                        counts.count(id)
                    } else {
                        0
                    },
                    None => 0,
                }),
        decreases TRACKED_SYSCALLS - i,
    {
        match SyscallId::from_slot(i) {
            Some(id) => {
                syscall_times[id.number()] = counts.get(id);
            },
            None => {},
        }
        i = i + 1;
    }
    let start: u64 = store.current_task_start_time();
    *ti = TaskInfo {
        status: store.current_task_status(),
        syscall_times,
        time: ((now - start) / MICROS_PER_MILLI) as usize,
    };
    0
}

} // verus!
