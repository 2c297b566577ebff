use vstd::prelude::*;

use crate::time::{elapsed_nanos, saturating_span_add, saturating_span_add_exec, Instant};

verus! {

/// Fixed time quantum for Round-Robin scheduling: 10 ms, in nanoseconds.
pub const RR_TIME_SLICE_NANOS: u64 = 10_000_000;

/// Scheduling weight of a non-idle task.
pub const SCHED_WEIGHT_BASE: i32 = 1024;

/// The accounting state of a task, as the contracts see it.
#[derive(Clone, Copy, Debug, PartialEq, Eq, Structural)]
pub struct SchedTaskView {
    /// When the task was last placed on the run queue, while it waits there.
    pub enqueued_at: Option<Instant>,
    /// When the current CPU time slice began, while the task runs.
    pub slice_started_at: Option<Instant>,
    /// Accumulated run-queue waiting time, in nanoseconds.
    pub total_wait: u128,
    /// Accumulated CPU time, in nanoseconds.
    pub total_runtime: u128,
}

impl SchedTaskView {
    /// A task that has never been queued nor run.
    pub open spec fn initial() -> SchedTaskView {
        SchedTaskView { enqueued_at: None, slice_started_at: None, total_wait: 0, total_runtime: 0 }
    }

    /// Both totals lie within the range of a `Duration`.
    pub open spec fn totals_in_range(self) -> bool {
        &&& self.total_wait <= crate::time::DURATION_MAX_NANOS
        &&& self.total_runtime <= crate::time::DURATION_MAX_NANOS
    }

    /// Placed on the run queue at `now`: the wait window opens, no slice is open.
    pub open spec fn after_enqueue(self, now: Instant) -> SchedTaskView {
        SchedTaskView { enqueued_at: Some(now), slice_started_at: None, ..self }
    }

    /// Selected to run at `now`: an open wait window is closed into `total_wait`,
    /// and a CPU slice starts at `now`.
    pub open spec fn after_dispatch(self, now: Instant) -> SchedTaskView {
        SchedTaskView {
            enqueued_at: None,
            slice_started_at: Some(now),
            total_wait: match self.enqueued_at {
                Some(enq) => saturating_span_add(
                    self.total_wait as int,
                    elapsed_nanos(enq, now) as int,
                ) as u128,
                None => self.total_wait,
            },
            ..self
        }
    }

    /// Whether the slice has run for a full Round-Robin quantum at `now`.
    pub open spec fn slice_expired(self, now: Instant) -> bool {
        match self.slice_started_at {
            Some(start) => elapsed_nanos(start, now) >= RR_TIME_SLICE_NANOS,
            None => false,
        }
    }

    /// Preempted or yielded at `now`: an open slice is closed into `total_runtime`.
    pub open spec fn after_preempt(self, now: Instant) -> SchedTaskView {
        SchedTaskView {
            slice_started_at: None,
            total_runtime: match self.slice_started_at {
                Some(start) => saturating_span_add(
                    self.total_runtime as int,
                    elapsed_nanos(start, now) as int,
                ) as u128,
                None => self.total_runtime,
            },
            ..self
        }
    }
}

/// Embedded scheduling state and metrics for a single task.
///
/// Lifecycle of a task through the scheduler:
///
///   1. Task is placed on the run queue  ->  `on_enqueue(now)`
///   2. Task is selected to run          ->  `on_dispatch(now)`
///   3. Scheduler ticks while running    ->  `tick(now)`, true when the slice expired
///   4. Task is preempted or yields      ->  `on_preempt(now)`
///   5. Repeat from step 1.
#[derive(Debug)]
pub struct SchedTask {
    /// Timestamp when the task was last placed on the run queue.
    pub enqueue_time: Option<Instant>,
    /// Timestamp when the current CPU time slice began.
    pub slice_start: Option<Instant>,
    /// Total time the task has spent waiting in the run queue, in nanoseconds.
    pub total_wait_time: u128,
    /// Total CPU time the task has consumed across all slices, in nanoseconds.
    pub total_runtime: u128,
}

impl View for SchedTask {
    type V = SchedTaskView;

    open spec fn view(&self) -> SchedTaskView {
        SchedTaskView {
            enqueued_at: self.enqueue_time,
            slice_started_at: self.slice_start,
            total_wait: self.total_wait_time,
            total_runtime: self.total_runtime,
        }
    }
}

impl SchedTask {
    /// A task with no open window and nothing accounted yet.
    pub fn new() -> (r: SchedTask)
        ensures
            r@ == SchedTaskView::initial(),
    {
        SchedTask { enqueue_time: None, slice_start: None, total_wait_time: 0, total_runtime: 0 }
    }

    /// Record that the task has been placed on the run queue.
    /// Starts the wait-time accounting window.
    pub fn on_enqueue(&mut self, now: Instant)
        ensures
            final(self)@ == old(self)@.after_enqueue(now),
    {
        self.enqueue_time = Some(now);
        self.slice_start = None;
    }

    /// Record that the task has been selected to run.
    /// Closes the wait-time window and opens the CPU-time window.
    pub fn on_dispatch(&mut self, now: Instant)
        ensures
            final(self)@ == old(self)@.after_dispatch(now),
    {
        if let Some(enq) = self.enqueue_time.take() {
            let waited = now.elapsed_since(enq);
            self.total_wait_time = saturating_span_add_exec(self.total_wait_time, waited);
        }
        self.slice_start = Some(now);
    }

    /// Called on every scheduler tick while the task is running.
    /// Returns `true` if the Round-Robin time slice has expired.
    pub fn tick(&self, now: Instant) -> (expired: bool)
        ensures
            expired == self@.slice_expired(now),
    {
        if let Some(start) = self.slice_start {
            now.elapsed_since(start) >= RR_TIME_SLICE_NANOS
        } else {
            false
        }
    }

    /// Total time the task has spent waiting in the run queue, in nanoseconds.
    pub fn total_wait_time(&self) -> (r: u128)
        ensures
            r == self@.total_wait,
    {
        self.total_wait_time
    }

    /// Total CPU time the task has consumed, in nanoseconds.
    pub fn total_runtime(&self) -> (r: u128)
        ensures
            r == self@.total_runtime,
    {
        self.total_runtime
    }

    /// Record that the task was preempted or voluntarily yielded.
    /// Closes the CPU-time accounting window and accumulates runtime.
    pub fn on_preempt(&mut self, now: Instant)
        ensures
            final(self)@ == old(self)@.after_preempt(now),
    {
        if let Some(start) = self.slice_start.take() {
            let ran = now.elapsed_since(start);
            self.total_runtime = saturating_span_add_exec(self.total_runtime, ran);
        }
    }
}


/// A schedulable wrapper around a kernel task.
///
/// `v_eligible` is always 0 so every task passes the run-queue eligibility
/// filter. `v_deadline` is set to the clock reading at enqueue time, giving
/// FIFO ordering: the task that has been waiting longest (lowest timestamp)
/// is selected first.
pub struct SchedulableTask<T> {
    /// Exclusively-owned, CPU-local task state.
    pub task: Box<T>,
    /// Virtual eligibility time. Always 0 in Round-Robin.
    pub v_eligible: u128,
    /// Virtual deadline used for FIFO ordering.
    pub v_deadline: u128,
    /// Round-Robin scheduling state and accumulated metrics.
    pub sched: SchedTask,
}

impl<T> core::ops::Deref for SchedulableTask<T> {
    type Target = T;

    fn deref(&self) -> (r: &T)
        ensures
            *r == *self.task,
    {
        &self.task
    }
}

/// How two tasks with virtual deadlines `a` and `b` are ordered:
/// the earlier deadline comes first.
pub open spec fn deadline_order(a: u128, b: u128) -> std::cmp::Ordering {
    if a < b {
        std::cmp::Ordering::Less
    } else if a == b {
        std::cmp::Ordering::Equal
    } else {
        std::cmp::Ordering::Greater
    }
}

impl<T> SchedulableTask<T> {
    /// Wrap a task in a new `SchedulableTask` ready for insertion into a run queue.
    pub fn new(task: Box<T>) -> (r: Box<SchedulableTask<T>>)
        ensures
            r.task == task,
            r.v_eligible == 0,
            r.v_deadline == 0,
            r.sched@ == SchedTaskView::initial(),
    {
        Box::new(SchedulableTask { task, v_eligible: 0, v_deadline: 0, sched: SchedTask::new() })
    }

    /// Scheduling weight. All non-idle tasks have equal weight in Round-Robin.
    pub fn weight(&self) -> (w: i32)
        ensures
            w == SCHED_WEIGHT_BASE,
    {
        SCHED_WEIGHT_BASE
    }

    /// Compare scheduling priority with another task: the task with the
    /// earlier enqueue time (lower `v_deadline`) is selected first.
    pub fn compare_with(&self, other: &SchedulableTask<T>) -> (ord: std::cmp::Ordering)
        ensures
            ord == deadline_order(self.v_deadline, other.v_deadline),
    {
        if self.v_deadline < other.v_deadline {
            std::cmp::Ordering::Less
        } else if self.v_deadline == other.v_deadline {
            std::cmp::Ordering::Equal
        } else {
            std::cmp::Ordering::Greater
        }
    }

    /// Called when the task is first placed onto the run queue (on creation
    /// or after a wakeup). `now` is the clock reading, if the clock is up.
    ///
    /// With a reading, any open runtime window is closed, `v_deadline` is set
    /// to the reading for FIFO ordering, and the wait window opens. In every
    /// case the task becomes eligible. `_vclock` is unused in Round-Robin.
    pub fn inserting_into_runqueue(&mut self, _vclock: u128, now: Option<Instant>)
        ensures
            final(self).task == old(self).task,
            final(self).v_eligible == 0,
            match now {
                Some(t) => {
                    &&& final(self).v_deadline == t.ticks
                    &&& final(self).sched@ == old(self).sched@.after_preempt(t).after_enqueue(t)
                },
                None => {
                    &&& final(self).v_deadline == old(self).v_deadline
                    &&& final(self).sched@ == old(self).sched@
                },
            },
    {
        if let Some(now) = now {
            self.sched.on_preempt(now);
            self.v_deadline = now.ticks() as u128;
            self.sched.on_enqueue(now);
        }
        self.v_eligible = 0;
    }

    /// Called when the task is preempted and immediately re-added to the
    /// back of the run queue: runtime is accumulated, the task goes behind
    /// every task queued before `now`, and a new wait window opens.
    pub fn re_enqueue(&mut self, now: Instant)
        ensures
            final(self).task == old(self).task,
            final(self).v_eligible == 0,
            final(self).v_deadline == now.ticks,
            final(self).sched@ == old(self).sched@.after_preempt(now).after_enqueue(now),
    {
        self.sched.on_preempt(now);
        self.v_deadline = now.ticks() as u128;
        self.sched.on_enqueue(now);
        self.v_eligible = 0;
    }

    /// Called just before the task begins executing on the CPU.
    /// Closes the wait-time accounting window.
    pub fn about_to_execute(&mut self, now: Instant)
        ensures
            final(self).task == old(self).task,
            final(self).v_eligible == old(self).v_eligible,
            final(self).v_deadline == old(self).v_deadline,
            final(self).sched@ == old(self).sched@.after_dispatch(now),
    {
        self.sched.on_dispatch(now);
    }

    /// Called on every scheduler tick while the task is running.
    /// Returns `true` if the Round-Robin time slice has expired.
    pub fn tick(&self, now: Instant) -> (expired: bool)
        ensures
            expired == self.sched@.slice_expired(now),
    {
        self.sched.tick(now)
    }
}

} // verus!
