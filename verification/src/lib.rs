use vstd::prelude::*;

pub mod time;
pub mod sched_task;
pub mod sched_laws;
pub mod syscall_log;
pub mod syscall_log_laws;
pub mod syscall_record;
pub mod syscall_table;
pub mod syslog;
pub mod dispatch;
pub mod syscall_args;
pub mod syscall_abi_laws;
