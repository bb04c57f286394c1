//! What the kernel keeps about one task: its status, the time it first ran,
//! and how often it has made each accounted system call.

use vstd::prelude::*;
use crate::config::TRACKED_SYSCALLS;
use crate::ident::SyscallId;

verus! {

/// Where a task stands in its life. `Exited` is final.
#[derive(Clone, Copy, Debug, PartialEq, Eq, Structural)]
pub enum TaskStatus {
    Ready,
    Running,
    Exited,
}

/// Per-task table of invocation counts, one entry for each accounted call.
/// Entries only ever grow.
#[derive(Clone, Copy, Debug)]
pub struct SyscallCounters {
    pub slots: [u32; TRACKED_SYSCALLS],
}

impl SyscallCounters {
    /// How often `id` has been counted.
    pub open spec fn count(self, id: SyscallId) -> nat {
        self.slots@[id.spec_slot() as int] as nat
    }

    /// How many calls have been counted in all.
    pub open spec fn total(self) -> nat {
        self.count(SyscallId::Write) + self.count(SyscallId::Exit) + self.count(SyscallId::Yield)
            + self.count(SyscallId::GetTime) + self.count(SyscallId::TaskInfo)
    }

    /// The table after one more invocation of `id`.
    pub open spec fn bumped(self, id: SyscallId) -> SyscallCounters {
        SyscallCounters {
            slots: vstd::array::spec_array_update(
                self.slots,
                id.spec_slot() as int,
                (self.count(id) + 1) as u32,
            ),
        }
    }

    /// A table in which nothing has been counted yet.
    pub fn new() -> (fresh: SyscallCounters)
        ensures
            forall|id: SyscallId| fresh.count(id) == 0,
            fresh.total() == 0,
    {
        SyscallCounters { slots: [0u32; TRACKED_SYSCALLS] }
    }

    /// Reads the count of one call.
    pub fn get(&self, id: SyscallId) -> (n: u32)
        ensures
            n == self.count(id),
    {
        self.slots[id.slot()]
    }

    /// Counts one invocation of `id`. All other entries stay as they were.
    pub fn record(&mut self, id: SyscallId)
        requires
            old(self).count(id) < u32::MAX,
        ensures
            *final(self) == old(self).bumped(id),
            final(self).count(id) == old(self).count(id) + 1,
            forall|other: SyscallId| other != id ==> final(self).count(other) == old(self).count(other),
            final(self).total() == old(self).total() + 1,
    {
        let i: usize = id.slot();
        let n: u32 = self.slots[i];
        self.slots[i] = n + 1;
        assert(self.slots@ =~= old(self).bumped(id).slots@);
    }

    /// Counting `id` raises its entry by one and leaves the others alone, so
    /// the sum of all entries grows by exactly one.
    pub proof fn lemma_bumped(self, id: SyscallId)
        requires
            self.count(id) < u32::MAX,
        ensures
            self.bumped(id).count(id) == self.count(id) + 1,
            forall|other: SyscallId| other != id ==> self.bumped(id).count(other) == self.count(other),
            self.bumped(id).total() == self.total() + 1,
    {
    }
}

/// How often the call `id` occurs in `calls`.
pub open spec fn occurrences(calls: Seq<SyscallId>, id: SyscallId) -> nat {
    calls.filter(|c: SyscallId| c == id).len()
}

/// The table `start` after the invocations `calls` were counted, first to
/// last.
pub open spec fn counted_all(start: SyscallCounters, calls: Seq<SyscallId>) -> SyscallCounters
    decreases calls.len(),
{
    if calls.len() == 0 {
        start
    } else {
        counted_all(start, calls.drop_last()).bumped(calls.last())
    }
}

/// The occurrences of all five calls add up to the length of the sequence.
pub proof fn lemma_occurrences_sum(calls: Seq<SyscallId>)
    ensures
        occurrences(calls, SyscallId::Write) + occurrences(calls, SyscallId::Exit) + occurrences(
            calls,
            SyscallId::Yield,
        ) + occurrences(calls, SyscallId::GetTime) + occurrences(calls, SyscallId::TaskInfo)
            == calls.len(),
    decreases calls.len(),
{
    reveal(Seq::filter);
    if calls.len() > 0 {
        lemma_occurrences_sum(calls.drop_last());
    }
}

/// After any sequence of invocations, each entry has grown by the number of
/// times its call occurs in the sequence, the last invocation included, as
/// long as no entry outgrows its 32 bits.
pub proof fn lemma_count_is_invocations(start: SyscallCounters, calls: Seq<SyscallId>)
    requires
        forall|id: SyscallId| start.count(id) + occurrences(calls, id) <= u32::MAX,
    ensures
        forall|id: SyscallId| #[trigger]
            counted_all(start, calls).count(id) == start.count(id) + occurrences(calls, id),
    decreases calls.len(),
{
    reveal(Seq::filter);
    if calls.len() > 0 {
        let before = calls.drop_last();
        let last = calls.last();
        assert forall|id: SyscallId| start.count(id) + occurrences(before, id) <= u32::MAX by {
            assert(occurrences(before, id) <= occurrences(calls, id));
        }
        lemma_count_is_invocations(start, before);
        let mid = counted_all(start, before);
        assert(mid.count(last) == start.count(last) + occurrences(before, last));
        assert(occurrences(calls, last) == occurrences(before, last) + 1);
        mid.lemma_bumped(last);
        assert forall|id: SyscallId| #[trigger]
            counted_all(start, calls).count(id) == start.count(id) + occurrences(calls, id) by {
            assert(mid.count(id) == start.count(id) + occurrences(before, id));
            if id != last {
                assert(occurrences(calls, id) == occurrences(before, id));
            }
        }
    }
}

/// In a table that started empty, the entry of a call equals the number of
/// times the call was made, and the entries add up to the number of calls
/// made in all.
pub proof fn lemma_fresh_counts(fresh: SyscallCounters, calls: Seq<SyscallId>)
    requires
        forall|id: SyscallId| fresh.count(id) == 0,
        calls.len() <= u32::MAX,
    ensures
        forall|id: SyscallId| #[trigger]
            counted_all(fresh, calls).count(id) == occurrences(calls, id),
        counted_all(fresh, calls).total() == calls.len(),
{
    assert forall|id: SyscallId| fresh.count(id) + occurrences(calls, id) <= u32::MAX by {
        calls.lemma_filter_len(|c: SyscallId| c == id);
    }
    lemma_count_is_invocations(fresh, calls);
    lemma_occurrences_sum(calls);
    let end = counted_all(fresh, calls);
    assert(end.count(SyscallId::Write) == occurrences(calls, SyscallId::Write));
    assert(end.count(SyscallId::Exit) == occurrences(calls, SyscallId::Exit));
    assert(end.count(SyscallId::Yield) == occurrences(calls, SyscallId::Yield));
    assert(end.count(SyscallId::GetTime) == occurrences(calls, SyscallId::GetTime));
    assert(end.count(SyscallId::TaskInfo) == occurrences(calls, SyscallId::TaskInfo));
}

/// The kernel's record of one task.
#[derive(Clone, Copy, Debug)]
pub struct TaskRecord {
    pub status: TaskStatus,
    /// The clock reading, in microseconds, at which the task first ran;
    /// `None` while it has never run.
    pub start_time: Option<u64>,
    pub syscall_counters: SyscallCounters,
}

impl TaskRecord {
    /// A task that has run, or runs now, has a start time.
    pub open spec fn wf(self) -> bool {
        !(self.status is Ready) ==> self.start_time is Some
    }

    /// The record of a task that was just created: ready to run, never run,
    /// nothing counted.
    pub open spec fn is_fresh(self) -> bool {
        &&& self.status is Ready
        &&& self.start_time is None
        &&& forall|id: SyscallId| self.syscall_counters.count(id) == 0
    }

    pub fn new() -> (rec: TaskRecord)
        ensures
            rec.is_fresh(),
            rec.wf(),
    {
        TaskRecord {
            status: TaskStatus::Ready,
            start_time: None,
            syscall_counters: SyscallCounters::new(),
        }
    }
}

} // verus!
