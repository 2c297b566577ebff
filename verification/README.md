# rr_sched

Verified core of a kernel's Round-Robin task accounting and syscall history.

- `src/time.rs` — clock readings (`Instant`, nanosecond ticks) and saturating
  duration arithmetic.
- `src/sched_task.rs` — per-task Round-Robin state (`SchedTask`), the run-queue
  element (`SchedulableTask`), FIFO ordering; `src/sched_laws.rs` — laws of the
  task lifecycle (wait/runtime accounting, slice expiry, FIFO order, no
  starvation and bounded wait).
- `src/syscall_log.rs` — the byte-bounded syscall history ring buffer;
  `src/syscall_log_laws.rs` — its laws (budget, eviction, read-back).
- `src/syscall_record.rs` — formatting of history lines and recording a syscall.
- `src/syslog.rs` — the decisions of the `syslog` diagnostic call.
- `src/syscall_table.rs` — the syscall number table and the results the
  dispatcher gives without a handler.
- `src/syscall_args.rs` — which caller registers each handler receives, in
  parameter order.
- `src/dispatch.rs` — the dispatcher's step plan for a syscall number (enter,
  record, answer or handle, write back, remember as previous).
- `app/lib.rs` — unverified glue: global state, the async dispatcher frame,
  user-memory copies and logging.

Modelling notes: an `Instant`'s ticks are taken to be nanoseconds of the
monotonic clock. If the kernel's clock counts at another rate, the 10 ms slice
and the wait and runtime totals are off by that factor. A reading earlier than
a window's start counts as no elapsed time. `SCHED_WEIGHT_BASE` is 1024.
