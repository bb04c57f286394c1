//! Numeric constants of the system-call interface.

use vstd::prelude::*;

verus! {

/// Width of the per-call table that `task_info` reports.
pub const MAX_SYSCALL_NUM: usize = 500;

/// How many system calls are accounted per task.
pub const TRACKED_SYSCALLS: usize = 5;

pub const SYSCALL_WRITE: usize = 64;

pub const SYSCALL_EXIT: usize = 93;

pub const SYSCALL_YIELD: usize = 124;

pub const SYSCALL_GET_TIME: usize = 169;

pub const SYSCALL_TASK_INFO: usize = 410;

/// Microseconds in one second.
pub const MICROS_PER_SEC: u64 = 1_000_000;

/// Microseconds in one millisecond.
pub const MICROS_PER_MILLI: u64 = 1_000;

} // verus!
