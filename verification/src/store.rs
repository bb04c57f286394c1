//! The task record store: one record per task, the task that holds the
//! processor, and the choice of the task that gets it next.
//!
//! Tasks take turns in a fixed circle. When the running task gives the
//! processor up, the nearest ready task after it in the circle gets it.

use vstd::prelude::*;
use crate::ident::SyscallId;
use crate::task::{SyscallCounters, TaskRecord, TaskStatus};

verus! {

/// Who holds the processor after a task gave it up.
#[derive(Clone, Copy, Debug, PartialEq, Eq, Structural)]
pub enum Next {
    /// The task with this index runs.
    Run(usize),
    /// No task is left to run: the machine stops.
    Halt,
}

/// How many tasks are asked before task `j` when the search for a ready task
/// starts behind task `from`, among `n` tasks. Task `from` itself is asked
/// last.
pub open spec fn turn_distance(from: int, j: int, n: int) -> int {
    if j > from {
        j - from - 1
    } else {
        j + n - from - 1
    }
}

/// No task in `recs` is ready.
pub open spec fn none_ready(recs: Seq<TaskRecord>) -> bool {
    forall|i: int| 0 <= i < recs.len() ==> !(#[trigger] recs[i].status is Ready)
}

/// Task `j` is ready, and no ready task comes before it in the circle
/// behind `from`.
pub open spec fn is_next_ready(recs: Seq<TaskRecord>, from: int, j: int) -> bool {
    &&& 0 <= j < recs.len()
    &&& recs[j].status is Ready
    &&& forall|i: int|
        0 <= i < recs.len() && #[trigger] recs[i].status is Ready ==> turn_distance(
            from,
            j,
            recs.len() as int,
        ) <= turn_distance(from, i, recs.len() as int)
}

/// The task that gets the processor when the task `from` gives it up, if
/// any task is ready.
pub open spec fn next_ready(recs: Seq<TaskRecord>, from: int) -> Option<int> {
    if none_ready(recs) {
        None
    } else {
        Some(choose|j: int| is_next_ready(recs, from, j))
    }
}

/// The records with task `i` set to `status`.
pub open spec fn with_status(recs: Seq<TaskRecord>, i: int, status: TaskStatus) -> Seq<
    TaskRecord,
> {
    recs.update(i, TaskRecord { status, ..recs[i] })
}

/// The records with one more invocation of `id` counted for task `i`.
pub open spec fn with_count(recs: Seq<TaskRecord>, i: int, id: SyscallId) -> Seq<TaskRecord> {
    recs.update(
        i,
        TaskRecord { syscall_counters: recs[i].syscall_counters.bumped(id), ..recs[i] },
    )
}

/// The records with task `j` put on the processor at time `now`. A task
/// that runs for the first time gets `now` as its start time; one that has
/// run before keeps the start time it has.
pub open spec fn dispatched(recs: Seq<TaskRecord>, j: int, now: u64) -> Seq<TaskRecord> {
    recs.update(
        j,
        TaskRecord {
            status: TaskStatus::Running,
            start_time: Some(
                match recs[j].start_time {
                    Some(t) => t,
                    None => now,
                },
            ),
            ..recs[j]
        },
    )
}

/// The records after the processor was handed on from task `from` at time
/// `now`: the next ready task runs; with none ready nothing changes.
pub open spec fn handed_on(recs: Seq<TaskRecord>, from: int, now: u64) -> Seq<TaskRecord> {
    match next_ready(recs, from) {
        Some(j) => dispatched(recs, j, now),
        None => recs,
    }
}

/// The answer that goes with `handed_on`.
pub open spec fn next_of(recs: Seq<TaskRecord>, from: int) -> Next {
    match next_ready(recs, from) {
        Some(j) => Next::Run(j as usize),
        None => Next::Halt,
    }
}

/// The task that counts as current after the processor was handed on.
pub open spec fn current_after(recs: Seq<TaskRecord>, from: int) -> int {
    match next_ready(recs, from) {
        Some(j) => j,
        None => from,
    }
}

/// At most one task satisfies `is_next_ready`.
pub proof fn lemma_next_ready_unique(recs: Seq<TaskRecord>, from: int, a: int, b: int)
    requires
        0 <= from < recs.len(),
        is_next_ready(recs, from, a),
        is_next_ready(recs, from, b),
    ensures
        a == b,
{
}

/// The task asked after `k` others when the search starts behind `from`.
pub open spec fn turn_at(from: int, k: int, n: int) -> int {
    if from + 1 + k < n {
        from + 1 + k
    } else {
        from + 1 + k - n
    }
}

proof fn lemma_some_next_ready(recs: Seq<TaskRecord>, from: int, k: int)
    requires
        0 <= from < recs.len(),
        0 <= k <= recs.len(),
        !none_ready(recs),
        forall|i: int|
            0 <= i < recs.len() && turn_distance(from, i, recs.len() as int) < k ==> !(
            #[trigger] recs[i].status is Ready),
    ensures
        exists|j: int| is_next_ready(recs, from, j),
    decreases recs.len() - k,
{
    let n = recs.len() as int;
    if k == n {
        assert forall|i: int| 0 <= i < n implies !(#[trigger] recs[i].status is Ready) by {
            assert(turn_distance(from, i, n) < n);
        }
    } else {
        let j = turn_at(from, k, n);
        assert(turn_distance(from, j, n) == k);
        if recs[j].status is Ready {
            assert(is_next_ready(recs, from, j));
        } else {
            assert forall|i: int|
                0 <= i < n && turn_distance(from, i, n) < k + 1 implies !(
            #[trigger] recs[i].status is Ready) by {
                if turn_distance(from, i, n) == k {
                    assert(i == j);
                }
            }
            lemma_some_next_ready(recs, from, k + 1);
        }
    }
}

/// Whenever some task is ready, `next_ready` names the nearest ready task
/// behind `from`; otherwise it names none.
pub proof fn lemma_next_ready(recs: Seq<TaskRecord>, from: int)
    requires
        0 <= from < recs.len(),
    ensures
        match next_ready(recs, from) {
            Some(j) => is_next_ready(recs, from, j),
            None => none_ready(recs),
        },
{
    if !none_ready(recs) {
        lemma_some_next_ready(recs, from, 0);
    }
}

/// A task that satisfies `is_next_ready` is the one that `next_ready` names.
pub proof fn lemma_next_ready_is(recs: Seq<TaskRecord>, from: int, j: int)
    requires
        0 <= from < recs.len(),
        is_next_ready(recs, from, j),
    ensures
        next_ready(recs, from) == Some(j),
{
    lemma_next_ready(recs, from);
    lemma_next_ready_unique(recs, from, next_ready(recs, from)->Some_0, j);
}

/// The records are sound with task `c` as the current one: `c` is a task
/// that is not waiting for its turn, no other task runs, and every task that
/// has run has a start time.
pub open spec fn records_wf(recs: Seq<TaskRecord>, c: int) -> bool {
    &&& 0 <= c < recs.len()
    &&& !(recs[c].status is Ready)
    &&& forall|i: int| 0 <= i < recs.len() ==> (#[trigger] recs[i]).wf()
    &&& forall|i: int| 0 <= i < recs.len() && (#[trigger] recs[i]).status is Running ==> i == c
}

/// The store of task records.
pub struct TaskStore {
    tasks: Vec<TaskRecord>,
    current: usize,
}

impl TaskStore {
    /// The records, by task index.
    pub closed spec fn view(&self) -> Seq<TaskRecord> {
        self.tasks@
    }

    /// The index of the task that ran last. It is the running task while
    /// any task runs.
    pub closed spec fn current(&self) -> int {
        self.current as int
    }

    /// The store is sound: see `records_wf`.
    pub open spec fn wf(&self) -> bool {
        records_wf(self@, self.current())
    }

    /// A task holds the processor.
    pub open spec fn running(&self) -> bool {
        self@[self.current()].status is Running
    }

    /// The record of the current task.
    pub open spec fn current_record(&self) -> TaskRecord {
        self@[self.current()]
    }

    /// Creates `n` tasks and puts the first of them on the processor at time
    /// `now`.
    pub fn new(n: usize, now: u64) -> (store: TaskStore)
        requires
            n >= 1,
        ensures
            store.wf(),
            store.running(),
            store@.len() == n,
            store.current() == 0,
            store@[0].start_time == Some(now),
            forall|id: SyscallId| store@[0].syscall_counters.count(id) == 0,
            forall|i: int| 1 <= i < n ==> (#[trigger] store@[i]).is_fresh(),
    {
        let mut first: TaskRecord = TaskRecord::new();
        first.status = TaskStatus::Running;
        first.start_time = Some(now);
        let mut tasks: Vec<TaskRecord> = Vec::new();
        tasks.push(first);
        let mut i: usize = 1;
        while i < n
            invariant
                1 <= i <= n,
                tasks@.len() == i,
                tasks@[0] == first,
                forall|k: int| 1 <= k < i ==> (#[trigger] tasks@[k]).is_fresh(),
            decreases n - i,
        {
            tasks.push(TaskRecord::new());
            i = i + 1;
        }
        TaskStore { tasks, current: 0 }
    }

    /// The number of tasks.
    pub fn len(&self) -> (n: usize)
        ensures
            n == self@.len(),
    {
        self.tasks.len()
    }

    /// The index of the current task.
    pub fn current_task(&self) -> (c: usize)
        ensures
            c == self.current(),
    {
        self.current
    }

    /// A copy of the record of task `i`.
    pub fn task(&self, i: usize) -> (rec: TaskRecord)
        requires
            i < self@.len(),
        ensures
            rec == self@[i as int],
    {
        self.tasks[i]
    }

    /// Whether a task holds the processor. It is `false` once the last task
    /// has exited.
    pub fn is_running(&self) -> (b: bool)
        requires
            self.wf(),
        ensures
            b == self.running(),
    {
        self.tasks[self.current].status == TaskStatus::Running
    }

    pub fn current_task_status(&self) -> (status: TaskStatus)
        requires
            self.wf(),
        ensures
            status == self.current_record().status,
    {
        self.tasks[self.current].status
    }

    /// The time at which the current task first ran.
    pub fn current_task_start_time(&self) -> (t: u64)
        requires
            self.wf(),
        ensures
            self.current_record().start_time == Some(t),
    {
        match self.tasks[self.current].start_time {
            Some(t) => t,
            None => 0,
        }
    }

    pub fn current_task_syscall_counts(&self) -> (counts: &SyscallCounters)
        requires
            self.wf(),
        ensures
            *counts == self.current_record().syscall_counters,
    {
        &self.tasks[self.current].syscall_counters
    }

    /// Counts one invocation of `id` for the current task.
    pub fn count_current(&mut self, id: SyscallId)
        requires
            old(self).wf(),
            old(self).current_record().syscall_counters.count(id) < u32::MAX,
        ensures
            final(self).wf(),
            final(self).current() == old(self).current(),
            final(self)@ == with_count(old(self)@, old(self).current(), id),
    {
        let c: usize = self.current;
        let mut rec: TaskRecord = self.tasks[c];
        rec.syscall_counters.record(id);
        self.tasks[c] = rec;
        assert(self.tasks@ =~= with_count(old(self)@, old(self).current(), id));
    }

    /// Finds the task whose turn is next: the nearest ready task behind the
    /// current one in the circle, the current one itself being the farthest.
    pub fn find_next(&self) -> (found: Option<usize>)
        requires
            0 <= self.current() < self@.len(),
        ensures
            match found {
                Some(j) => next_ready(self@, self.current()) == Some(j as int),
                None => next_ready(self@, self.current()) is None,
            },
            found matches Some(j) ==> is_next_ready(self@, self.current(), j as int),
    {
        let n: usize = self.tasks.len();
        let mut k: usize = 0;
        let mut j: usize = if self.current + 1 < n {
            self.current + 1
        } else {
            0
        };
        while k < n
            invariant
                n == self.tasks@.len(),
                self.current < n,
                k <= n,
                j < n,
                k < n ==> turn_distance(self.current as int, j as int, n as int) == k,
                forall|i: int|
                    0 <= i < n && turn_distance(self.current as int, i, n as int) < k ==> !(
                    #[trigger] self.tasks@[i].status is Ready),
            decreases n - k,
        {
            if self.tasks[j].status == TaskStatus::Ready {
                proof {
                    lemma_next_ready_is(self@, self.current(), j as int);
                }
                return Some(j);
            }
            k = k + 1;
            j = if j + 1 < n {
                j + 1
            } else {
                0
            };
        }
        assert(none_ready(self@)) by {
            assert forall|i: int| 0 <= i < self@.len() implies !(
            #[trigger] self@[i].status is Ready) by {
                assert(turn_distance(self.current as int, i, n as int) < n);
            }
        }
        None
    }

    /// Hands the processor to the task whose turn is next, at time `now`.
    /// The current task must have given it up already.
    fn run_next(&mut self, now: u64) -> (next: Next)
        requires
            0 <= old(self).current() < old(self)@.len(),
            forall|i: int| 0 <= i < old(self)@.len() ==> (#[trigger] old(self)@[i]).wf(),
            forall|i: int|
                0 <= i < old(self)@.len() ==> !((#[trigger] old(self)@[i]).status is Running),
        ensures
            final(self)@ == handed_on(old(self)@, old(self).current(), now),
            final(self).current() == current_after(old(self)@, old(self).current()),
            next == next_of(old(self)@, old(self).current()),
            next is Run ==> final(self).wf() && final(self).running(),
            next is Halt ==> !final(self).running(),
    {
        match self.find_next() {
            Some(j) => {
                let mut rec: TaskRecord = self.tasks[j];
                rec.status = TaskStatus::Running;
                if rec.start_time.is_none() {
                    rec.start_time = Some(now);
                }
                self.tasks[j] = rec;
                self.current = j;
                assert(self.tasks@ =~= handed_on(old(self)@, old(self).current(), now));
                Next::Run(j)
            },
            None => Next::Halt,
        }
    }

    /// The current task ends for good, and the next ready task runs. With no
    /// ready task left the answer is `Halt` and nothing runs any more.
    pub fn exit_current_and_run_next(&mut self, now: u64) -> (next: Next)
        requires
            old(self).wf(),
            old(self).running(),
        ensures
            final(self).wf(),
            final(self)@ == handed_on(
                with_status(old(self)@, old(self).current(), TaskStatus::Exited),
                old(self).current(),
                now,
            ),
            final(self).current() == current_after(
                with_status(old(self)@, old(self).current(), TaskStatus::Exited),
                old(self).current(),
            ),
            next == next_of(
                with_status(old(self)@, old(self).current(), TaskStatus::Exited),
                old(self).current(),
            ),
            final(self)@[old(self).current()].status is Exited,
            next is Run <==> final(self).running(),
            next is Halt <==> none_ready(old(self)@),
    {
        let c: usize = self.current;
        let mut rec: TaskRecord = self.tasks[c];
        rec.status = TaskStatus::Exited;
        self.tasks[c] = rec;
        assert(self.tasks@ =~= with_status(old(self)@, old(self).current(), TaskStatus::Exited));
        proof {
            let parked = with_status(old(self)@, old(self).current(), TaskStatus::Exited);
            lemma_next_ready(parked, c as int);
            if none_ready(old(self)@) {
                assert(none_ready(parked));
            } else {
                let i = choose|i: int| 0 <= i < old(self)@.len() && old(self)@[i].status is Ready;
                assert(parked[i].status is Ready);
            }
        }
        self.run_next(now)
    }

    /// The current task gives up the rest of its turn and waits to be chosen
    /// again; the next ready task runs. That may be the same task, when no
    /// other is ready. The answer is the index of the task that runs.
    pub fn suspend_current_and_run_next(&mut self, now: u64) -> (next: usize)
        requires
            old(self).wf(),
            old(self).running(),
        ensures
            final(self).wf(),
            final(self).running(),
            final(self)@ == handed_on(
                with_status(old(self)@, old(self).current(), TaskStatus::Ready),
                old(self).current(),
                now,
            ),
            next_of(
                with_status(old(self)@, old(self).current(), TaskStatus::Ready),
                old(self).current(),
            ) == Next::Run(next),
            final(self).current() == next,
            final(self).current() == current_after(
                with_status(old(self)@, old(self).current(), TaskStatus::Ready),
                old(self).current(),
            ),
    {
        let c: usize = self.current;
        let mut rec: TaskRecord = self.tasks[c];
        rec.status = TaskStatus::Ready;
        self.tasks[c] = rec;
        assert(self.tasks@ =~= with_status(old(self)@, old(self).current(), TaskStatus::Ready));
        assert(self.tasks@[c as int].status is Ready);
        proof {
            lemma_next_ready(self.tasks@, c as int);
        }
        match self.run_next(now) {
            Next::Run(j) => j,
            Next::Halt => c,
        }
    }
}

} // verus!
