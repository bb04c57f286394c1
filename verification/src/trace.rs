//! What holds of a task's counters over a whole run of system calls.
//!
//! A run is a sequence of traps, each with the number of the call and the
//! clock reading at which it was made. The traps are dispatched one after
//! the other; whoever runs at the time is the caller. Once nothing runs any
//! more, no trap is dispatched.

use vstd::prelude::*;
use crate::dispatch::{current_after_call, records_after};
use crate::ident::SyscallId;
use crate::store::{lemma_next_ready, records_wf, with_count, with_status};
use crate::task::{counted_all, lemma_fresh_counts, occurrences, TaskRecord, TaskStatus};

verus! {

/// One trap of a run: the number of the system call, and when it was made.
pub struct Trap {
    pub number: usize,
    pub now: u64,
}

/// The call that the trap `t` makes when task `c` is current: the call that
/// its number names, as long as `c` runs.
pub open spec fn dispatched_call(recs: Seq<TaskRecord>, c: int, t: Trap) -> Option<SyscallId> {
    if recs[c].status is Running {
        SyscallId::spec_from_number(t.number)
    } else {
        None
    }
}

/// The records after the one trap `t`.
pub open spec fn step_records(recs: Seq<TaskRecord>, c: int, t: Trap) -> Seq<TaskRecord> {
    match dispatched_call(recs, c, t) {
        Some(id) => records_after(recs, c, id, t.now),
        None => recs,
    }
}

/// The current task after the one trap `t`.
pub open spec fn step_current(recs: Seq<TaskRecord>, c: int, t: Trap) -> int {
    match dispatched_call(recs, c, t) {
        Some(id) => current_after_call(recs, c, id),
        None => c,
    }
}

/// The records after the run `traps`, started with the records `recs` and
/// the current task `c`.
pub open spec fn run_records(recs: Seq<TaskRecord>, c: int, traps: Seq<Trap>) -> Seq<TaskRecord>
    decreases traps.len(),
{
    if traps.len() == 0 {
        recs
    } else {
        step_records(
            run_records(recs, c, traps.drop_last()),
            run_current(recs, c, traps.drop_last()),
            traps.last(),
        )
    }
}

/// The current task after the run `traps`.
pub open spec fn run_current(recs: Seq<TaskRecord>, c: int, traps: Seq<Trap>) -> int
    decreases traps.len(),
{
    if traps.len() == 0 {
        c
    } else {
        step_current(
            run_records(recs, c, traps.drop_last()),
            run_current(recs, c, traps.drop_last()),
            traps.last(),
        )
    }
}

/// The calls that task `who` made in the run `traps`, first to last.
pub open spec fn calls_by(recs: Seq<TaskRecord>, c: int, traps: Seq<Trap>, who: int) -> Seq<
    SyscallId,
>
    decreases traps.len(),
{
    if traps.len() == 0 {
        Seq::empty()
    } else {
        let before = calls_by(recs, c, traps.drop_last(), who);
        let caller = run_current(recs, c, traps.drop_last());
        match dispatched_call(run_records(recs, c, traps.drop_last()), caller, traps.last()) {
            Some(id) => if caller == who {
                before.push(id)
            } else {
                before
            },
            None => before,
        }
    }
}

/// One dispatched call keeps the number of tasks and the current task's
/// index in range, counts the call for the caller and for nobody else, and
/// leaves every exited task as it was.
pub proof fn lemma_call_counted_once(recs: Seq<TaskRecord>, c: int, id: SyscallId, now: u64)
    requires
        0 <= c < recs.len(),
        recs[c].status is Running,
    ensures
        records_after(recs, c, id, now).len() == recs.len(),
        0 <= current_after_call(recs, c, id) < recs.len(),
        records_after(recs, c, id, now)[c].syscall_counters == recs[c].syscall_counters.bumped(id),
        forall|i: int|
            0 <= i < recs.len() && i != c ==> (#[trigger] records_after(
                recs,
                c,
                id,
                now,
            )[i]).syscall_counters == recs[i].syscall_counters,
        forall|i: int|
            0 <= i < recs.len() && recs[i].status is Exited ==> #[trigger] records_after(
                recs,
                c,
                id,
                now,
            )[i] == recs[i],
{
    let counted = with_count(recs, c, id);
    lemma_next_ready(with_status(counted, c, TaskStatus::Exited), c);
    lemma_next_ready(with_status(counted, c, TaskStatus::Ready), c);
}

/// One dispatched call keeps the records sound: afterwards, too, at most
/// one task runs, and it is the current one.
pub proof fn lemma_call_keeps_wf(recs: Seq<TaskRecord>, c: int, id: SyscallId, now: u64)
    requires
        records_wf(recs, c),
        recs[c].status is Running,
    ensures
        records_wf(records_after(recs, c, id, now), current_after_call(recs, c, id)),
{
    let counted = with_count(recs, c, id);
    lemma_next_ready(with_status(counted, c, TaskStatus::Exited), c);
    lemma_next_ready(with_status(counted, c, TaskStatus::Ready), c);
}

/// At every point of a run at most one task runs, and it is the current
/// one.
pub proof fn lemma_run_keeps_wf(recs: Seq<TaskRecord>, c: int, traps: Seq<Trap>)
    requires
        records_wf(recs, c),
    ensures
        records_wf(run_records(recs, c, traps), run_current(recs, c, traps)),
    decreases traps.len(),
{
    if traps.len() > 0 {
        let before = traps.drop_last();
        lemma_run_keeps_wf(recs, c, before);
        let mid = run_records(recs, c, before);
        let cur = run_current(recs, c, before);
        match dispatched_call(mid, cur, traps.last()) {
            Some(id) => lemma_call_keeps_wf(mid, cur, id, traps.last().now),
            None => {},
        }
    }
}

/// A run keeps the number of tasks and the current task's index in range.
pub proof fn lemma_run_in_range(recs: Seq<TaskRecord>, c: int, traps: Seq<Trap>)
    requires
        0 <= c < recs.len(),
    ensures
        run_records(recs, c, traps).len() == recs.len(),
        0 <= run_current(recs, c, traps) < recs.len(),
    decreases traps.len(),
{
    if traps.len() > 0 {
        let before = traps.drop_last();
        lemma_run_in_range(recs, c, before);
        let mid = run_records(recs, c, before);
        let cur = run_current(recs, c, before);
        match dispatched_call(mid, cur, traps.last()) {
            Some(id) => lemma_call_counted_once(mid, cur, id, traps.last().now),
            None => {},
        }
    }
}

/// After any run, the table of each task is the table it started with,
/// with exactly the calls counted that the task made itself.
pub proof fn lemma_run_counts(recs: Seq<TaskRecord>, c: int, traps: Seq<Trap>, who: int)
    requires
        0 <= c < recs.len(),
        0 <= who < recs.len(),
    ensures
        run_records(recs, c, traps)[who].syscall_counters == counted_all(
            recs[who].syscall_counters,
            calls_by(recs, c, traps, who),
        ),
    decreases traps.len(),
{
    if traps.len() > 0 {
        let before = traps.drop_last();
        lemma_run_counts(recs, c, before, who);
        lemma_run_in_range(recs, c, before);
        let mid = run_records(recs, c, before);
        let cur = run_current(recs, c, before);
        match dispatched_call(mid, cur, traps.last()) {
            Some(id) => {
                lemma_call_counted_once(mid, cur, id, traps.last().now);
                if cur == who {
                    let made = calls_by(recs, c, traps, who);
                    assert(made.drop_last() =~= calls_by(recs, c, before, who));
                    assert(made.last() == id);
                }
            },
            None => {},
        }
    }
}

/// A task that exited during a run is never counted for again: its record
/// at the end of any longer run is the one it had when the shorter run
/// ended.
pub proof fn lemma_exited_is_final(
    recs: Seq<TaskRecord>,
    c: int,
    traps: Seq<Trap>,
    more: Seq<Trap>,
    who: int,
)
    requires
        0 <= c < recs.len(),
        0 <= who < recs.len(),
        run_records(recs, c, traps)[who].status is Exited,
    ensures
        run_records(recs, c, traps + more)[who] == run_records(recs, c, traps)[who],
    decreases more.len(),
{
    if more.len() == 0 {
        assert(traps + more =~= traps);
    } else {
        let before = traps + more.drop_last();
        assert((traps + more).drop_last() =~= before);
        assert((traps + more).last() == more.last());
        lemma_exited_is_final(recs, c, traps, more.drop_last(), who);
        lemma_run_in_range(recs, c, before);
        let mid = run_records(recs, c, before);
        let cur = run_current(recs, c, before);
        match dispatched_call(mid, cur, more.last()) {
            Some(id) => lemma_call_counted_once(mid, cur, id, more.last().now),
            None => {},
        }
    }
}

/// For a task that was created with an empty table, the entry of each call
/// after a run is the number of times the task made that call, and all
/// entries together are the number of calls the task made.
pub proof fn lemma_fresh_task_counts(recs: Seq<TaskRecord>, c: int, traps: Seq<Trap>, who: int)
    requires
        0 <= c < recs.len(),
        0 <= who < recs.len(),
        forall|id: SyscallId| recs[who].syscall_counters.count(id) == 0,
        traps.len() <= u32::MAX,
    ensures
        forall|id: SyscallId| #[trigger]
            run_records(recs, c, traps)[who].syscall_counters.count(id) == occurrences(
                calls_by(recs, c, traps, who),
                id,
            ),
        run_records(recs, c, traps)[who].syscall_counters.total() == calls_by(
            recs,
            c,
            traps,
            who,
        ).len(),
{
    lemma_calls_by_len(recs, c, traps, who);
    lemma_run_counts(recs, c, traps, who);
    lemma_fresh_counts(recs[who].syscall_counters, calls_by(recs, c, traps, who));
}

/// A task makes no more calls in a run than the run has traps.
pub proof fn lemma_calls_by_len(recs: Seq<TaskRecord>, c: int, traps: Seq<Trap>, who: int)
    ensures
        calls_by(recs, c, traps, who).len() <= traps.len(),
    decreases traps.len(),
{
    if traps.len() > 0 {
        lemma_calls_by_len(recs, c, traps.drop_last(), who);
    }
}

} // verus!
