//! The dispatcher: counts each recognized system call for the task that
//! made it, then hands it to its handler.
//!
//! The call is counted before its handler runs, so a task's report on
//! itself includes the call that asks for it, and a task's last `exit` is
//! in its own table.

use vstd::prelude::*;
use crate::ident::SyscallId;
use crate::process::{elapsed_ms, sys_exit, sys_get_time, sys_task_info, sys_yield, TaskInfo, TimeVal};
use crate::store::{
    current_after, handed_on, lemma_next_ready, next_of, with_count, with_status, Next, TaskStore,
};
use crate::task::{TaskRecord, TaskStatus};

verus! {

/// What the kernel owes the trap after a system call was dispatched.
#[derive(Clone, Copy, Debug)]
pub enum Reply {
    /// The number names no system call. Nothing was counted or changed.
    Rejected,
    /// A console write of `len` bytes at `buf` to `fd`, still to be carried
    /// out; its result is the caller's status.
    Write { fd: usize, buf: usize, len: usize },
    /// The caller has exited with `code` and does not come back.
    Exit { code: i32, next: Next },
    /// The caller has yielded and sees `status` when it runs again.
    Yield { status: isize },
    /// `time` is to be stored at the caller's address `dest`.
    Time { dest: usize, time: TimeVal, status: isize },
    /// `info` is to be stored at the caller's address `dest`.
    Info { dest: usize, info: TaskInfo, status: isize },
}

/// The status of a call whose number was not recognized.
pub const UNKNOWN_SYSCALL: isize = -1;

impl Reply {
    /// The status that the caller sees, where the dispatcher decides it: a
    /// negative one for a rejected call, the handler's otherwise. An exited
    /// caller sees none, and that of a write is decided by the write.
    pub open spec fn spec_status(&self) -> Option<isize> {
        match *self {
            Reply::Rejected => Some(UNKNOWN_SYSCALL),
            Reply::Write { .. } => None,
            Reply::Exit { .. } => None,
            Reply::Yield { status } => Some(status),
            Reply::Time { status, .. } => Some(status),
            Reply::Info { status, .. } => Some(status),
        }
    }

    #[verifier::when_used_as_spec(spec_status)]
    pub fn status(&self) -> (s: Option<isize>)
        ensures
            s == self.spec_status(),
    {
        match self {
            Reply::Rejected => Some(UNKNOWN_SYSCALL),
            Reply::Write { .. } => None,
            Reply::Exit { .. } => None,
            Reply::Yield { status } => Some(*status),
            Reply::Time { status, .. } => Some(*status),
            Reply::Info { status, .. } => Some(*status),
        }
    }
}

/// The exit code that a task passes in its first argument register.
pub open spec fn exit_code_of(arg: usize) -> i32 {
    arg as i32
}

/// The records after task `c` made the call `id` at time `now`: the call is
/// counted for `c`; then `exit` ends `c` and `yield` makes it ready, and
/// either hands the processor on.
pub open spec fn records_after(recs: Seq<TaskRecord>, c: int, id: SyscallId, now: u64) -> Seq<
    TaskRecord,
> {
    let counted = with_count(recs, c, id);
    match id {
        SyscallId::Exit => handed_on(with_status(counted, c, TaskStatus::Exited), c, now),
        SyscallId::Yield => handed_on(with_status(counted, c, TaskStatus::Ready), c, now),
        _ => counted,
    }
}

/// The current task after task `c` made the call `id`.
pub open spec fn current_after_call(recs: Seq<TaskRecord>, c: int, id: SyscallId) -> int {
    let counted = with_count(recs, c, id);
    match id {
        SyscallId::Exit => current_after(with_status(counted, c, TaskStatus::Exited), c),
        SyscallId::Yield => current_after(with_status(counted, c, TaskStatus::Ready), c),
        _ => c,
    }
}

/// `reply` is the answer owed to task `c` for the call `id` with the
/// arguments `args`, made at time `now` with the records `recs`.
pub open spec fn is_reply_to(
    reply: Reply,
    recs: Seq<TaskRecord>,
    c: int,
    id: SyscallId,
    args: [usize; 3],
    now: u64,
) -> bool {
    let counted = with_count(recs, c, id);
    match id {
        SyscallId::Write => reply == (Reply::Write { fd: args@[0], buf: args@[1], len: args@[2] }),
        SyscallId::Exit => reply == (Reply::Exit {
            code: exit_code_of(args@[0]),
            next: next_of(with_status(counted, c, TaskStatus::Exited), c),
        }),
        SyscallId::Yield => reply == (Reply::Yield { status: 0 }),
        SyscallId::GetTime => reply == (Reply::Time {
            dest: args@[0],
            time: TimeVal::of_micros(now),
            status: 0,
        }),
        SyscallId::TaskInfo => {
            &&& reply matches Reply::Info { dest, info, status }
            &&& dest == args@[0]
            &&& status == 0
            &&& info.is_snapshot(
                TaskStatus::Running,
                counted[c].syscall_counters,
                recs[c].start_time->Some_0,
                now,
            )
        },
    }
}

/// What the machine's limits ask of a call before it can be dispatched:
/// the counter has room for one more, and the times asked for fit a machine
/// word and do not lie before the caller's start.
pub open spec fn dispatchable(rec: TaskRecord, id: SyscallId, now: u64) -> bool {
    &&& rec.syscall_counters.count(id) < u32::MAX
    &&& id is GetTime ==> TimeVal::fits(now)
    &&& id is TaskInfo ==> (rec.start_time matches Some(start) && start <= now && elapsed_ms(
        start,
        now,
    ) <= usize::MAX)
}

/// Dispatches the system call with the number `number` and the argument
/// registers `args`, made by the running task at time `now`.
///
/// A number that names no call is rejected and changes nothing. Any other
/// call is first counted for the caller and then handled. Only the caller's
/// table grows, by exactly one in the entry of the call made; a task that
/// has exited is never touched again.
pub fn syscall(store: &mut TaskStore, number: usize, args: [usize; 3], now: u64) -> (reply: Reply)
    requires
        old(store).wf(),
        old(store).running(),
        SyscallId::spec_from_number(number) matches Some(id) ==> dispatchable(
            old(store).current_record(),
            id,
            now,
        ),
    ensures
        final(store).wf(),
        final(store)@.len() == old(store)@.len(),
        match SyscallId::spec_from_number(number) {
            None => {
                &&& reply is Rejected
                &&& final(store)@ == old(store)@
                &&& final(store).current() == old(store).current()
            },
            Some(id) => {
                &&& is_reply_to(reply, old(store)@, old(store).current(), id, args, now)
                &&& final(store)@ == records_after(old(store)@, old(store).current(), id, now)
                &&& final(store).current() == current_after_call(
                    old(store)@,
                    old(store).current(),
                    id,
                )
                &&& forall|s: SyscallId| #[trigger]
                    final(store)@[old(store).current()].syscall_counters.count(s) == old(
                        store,
                    ).current_record().syscall_counters.count(s) + if s == id {
                        1nat
                    } else {
                        0nat
                    }
            },
        },
        forall|i: int|
            0 <= i < old(store)@.len() && i != old(store).current() ==> (
            #[trigger] final(store)@[i]).syscall_counters == old(store)@[i].syscall_counters,
        forall|i: int|
            0 <= i < old(store)@.len() && old(store)@[i].status is Exited
                ==> #[trigger] final(store)@[i] == old(store)@[i],
        reply is Exit || final(store).running(),
{
    let id: SyscallId = match SyscallId::from_number(number) {
        Some(id) => id,
        None => {
            return Reply::Rejected;
        },
    };
    let ghost c: int = store.current();
    let ghost counted: Seq<TaskRecord> = with_count(store@, c, id);
    proof {
        store.current_record().syscall_counters.lemma_bumped(id);
    }
    store.count_current(id);
    match id {
        SyscallId::Write => Reply::Write { fd: args[0], buf: args[1], len: args[2] },
        SyscallId::Exit => {
            proof {
                lemma_next_ready(with_status(counted, c, TaskStatus::Exited), c);
            }
            let code: i32 = #[verifier::truncate]
            (args[0] as i32);
            let next: Next = sys_exit(store, code, now);
            Reply::Exit { code, next }
        },
        SyscallId::Yield => {
            proof {
                lemma_next_ready(with_status(counted, c, TaskStatus::Ready), c);
            }
            let status: isize = sys_yield(store, now);
            Reply::Yield { status }
        },
        SyscallId::GetTime => {
            let mut time: TimeVal = TimeVal::new();
            let status: isize = sys_get_time(&mut time, args[1], now);
            Reply::Time { dest: args[0], time, status }
        },
        SyscallId::TaskInfo => {
            let mut info: TaskInfo = TaskInfo::new();
            let status: isize = sys_task_info(&mut info, store, now);
            Reply::Info { dest: args[0], info, status }
        },
    }
}

} // verus!
