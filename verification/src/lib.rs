//! Task accounting and lifecycle core of a small teaching kernel's system-call
//! layer: per-task records, a counting dispatcher, and the four process
//! handlers (`exit`, `yield`, `get_time`, `task_info`).
//!
//! Nothing here touches hardware. The clock reading and the task store are
//! handed to every operation as plain values, so the whole core can be
//! exercised without a trap.

pub mod config;
pub mod ident;
pub mod task;
pub mod store;
pub mod process;
pub mod dispatch;
pub mod trace;
