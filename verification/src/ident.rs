//! The identity of an accounted system call, kept apart from its number.

use vstd::prelude::*;
use crate::config::{
    MAX_SYSCALL_NUM, SYSCALL_EXIT, SYSCALL_GET_TIME, SYSCALL_TASK_INFO, SYSCALL_WRITE,
    SYSCALL_YIELD, TRACKED_SYSCALLS,
};

verus! {

/// One of the system calls that a task is accounted for.
#[derive(Clone, Copy, Debug, PartialEq, Eq, Structural)]
pub enum SyscallId {
    Write,
    Exit,
    Yield,
    GetTime,
    TaskInfo,
}

impl SyscallId {
    /// The number under which a trap carries this call.
    pub open spec fn spec_number(self) -> usize {
        match self {
            SyscallId::Write => SYSCALL_WRITE,
            SyscallId::Exit => SYSCALL_EXIT,
            SyscallId::Yield => SYSCALL_YIELD,
            SyscallId::GetTime => SYSCALL_GET_TIME,
            SyscallId::TaskInfo => SYSCALL_TASK_INFO,
        }
    }

    /// The position of this call in a task's counter table.
    pub open spec fn spec_slot(self) -> usize {
        match self {
            SyscallId::Write => 0,
            SyscallId::Exit => 1,
            SyscallId::Yield => 2,
            SyscallId::GetTime => 3,
            SyscallId::TaskInfo => 4,
        }
    }

    /// The call that a number stands for, if it stands for one.
    pub open spec fn spec_from_number(n: usize) -> Option<SyscallId> {
        if n == SYSCALL_WRITE {
            Some(SyscallId::Write)
        } else if n == SYSCALL_EXIT {
            Some(SyscallId::Exit)
        } else if n == SYSCALL_YIELD {
            Some(SyscallId::Yield)
        } else if n == SYSCALL_GET_TIME {
            Some(SyscallId::GetTime)
        } else if n == SYSCALL_TASK_INFO {
            Some(SyscallId::TaskInfo)
        } else {
            None
        }
    }

    /// The call kept at a position of the counter table.
    pub open spec fn spec_from_slot(i: usize) -> Option<SyscallId> {
        if i == 0 {
            Some(SyscallId::Write)
        } else if i == 1 {
            Some(SyscallId::Exit)
        } else if i == 2 {
            Some(SyscallId::Yield)
        } else if i == 3 {
            Some(SyscallId::GetTime)
        } else if i == 4 {
            Some(SyscallId::TaskInfo)
        } else {
            None
        }
    }

    #[verifier::when_used_as_spec(spec_number)]
    pub fn number(self) -> (n: usize)
        ensures
            n == self.spec_number(),
            n < MAX_SYSCALL_NUM,
    {
        match self {
            SyscallId::Write => SYSCALL_WRITE,
            SyscallId::Exit => SYSCALL_EXIT,
            SyscallId::Yield => SYSCALL_YIELD,
            SyscallId::GetTime => SYSCALL_GET_TIME,
            SyscallId::TaskInfo => SYSCALL_TASK_INFO,
        }
    }

    #[verifier::when_used_as_spec(spec_slot)]
    pub fn slot(self) -> (i: usize)
        ensures
            i == self.spec_slot(),
            i < TRACKED_SYSCALLS,
    {
        match self {
            SyscallId::Write => 0,
            SyscallId::Exit => 1,
            SyscallId::Yield => 2,
            SyscallId::GetTime => 3,
            SyscallId::TaskInfo => 4,
        }
    }

    /// Recognizes a system-call number. A number that names no accounted
    /// call gives `None`.
    #[verifier::when_used_as_spec(spec_from_number)]
    pub fn from_number(n: usize) -> (id: Option<SyscallId>)
        ensures
            id == Self::spec_from_number(n),
            id matches Some(s) ==> s.spec_number() == n,
            id is None <==> forall|s: SyscallId| s.spec_number() != n,
    {
        if n == SYSCALL_WRITE {
            Some(SyscallId::Write)
        } else if n == SYSCALL_EXIT {
            Some(SyscallId::Exit)
        } else if n == SYSCALL_YIELD {
            Some(SyscallId::Yield)
        } else if n == SYSCALL_GET_TIME {
            Some(SyscallId::GetTime)
        } else if n == SYSCALL_TASK_INFO {
            Some(SyscallId::TaskInfo)
        } else {
            None
        }
    }

    /// The call kept at position `i` of the counter table; `None` past the
    /// table's end.
    #[verifier::when_used_as_spec(spec_from_slot)]
    pub fn from_slot(i: usize) -> (id: Option<SyscallId>)
        ensures
            id == Self::spec_from_slot(i),
            id matches Some(s) ==> s.spec_slot() == i,
            id is None <==> i >= TRACKED_SYSCALLS,
    {
        if i == 0 {
            Some(SyscallId::Write)
        } else if i == 1 {
            Some(SyscallId::Exit)
        } else if i == 2 {
            Some(SyscallId::Yield)
        } else if i == 3 {
            Some(SyscallId::GetTime)
        } else if i == 4 {
            Some(SyscallId::TaskInfo)
        } else {
            None
        }
    }
}

} // verus!
