use rr_sched::sched_task::{SchedTask, SchedulableTask, RR_TIME_SLICE_NANOS, SCHED_WEIGHT_BASE};
use rr_sched::time::{Instant, DURATION_MAX_NANOS};
use std::cmp::Ordering;

fn at(ticks: u64) -> Instant {
    Instant::from_ticks(ticks)
}

#[test]
fn new_task_has_nothing_accounted() {
    let t = SchedTask::new();
    assert_eq!(t.total_wait_time, 0);
    assert_eq!(t.total_runtime, 0);
    assert!(!t.tick(at(u64::MAX)));
}

#[test]
fn wait_is_accounted_from_enqueue_to_dispatch() {
    let mut t = SchedTask::new();
    t.on_enqueue(at(1_000));
    t.on_dispatch(at(4_500));
    assert_eq!(t.total_wait_time, 3_500);
    assert_eq!(t.total_runtime, 0);
}

#[test]
fn dispatch_without_enqueue_adds_no_wait() {
    let mut t = SchedTask::new();
    t.on_dispatch(at(10));
    assert_eq!(t.total_wait_time, 0);
    t.on_enqueue(at(20));
    t.on_dispatch(at(50));
    t.on_dispatch(at(500));
    assert_eq!(t.total_wait_time, 30);
}

#[test]
fn runtime_is_accounted_from_dispatch_to_preempt() {
    let mut t = SchedTask::new();
    t.on_enqueue(at(0));
    t.on_dispatch(at(100));
    t.on_preempt(at(2_100));
    assert_eq!(t.total_runtime, 2_000);
    assert_eq!(t.total_wait_time, 100);
}

#[test]
fn second_preempt_is_a_noop() {
    let mut t = SchedTask::new();
    t.on_dispatch(at(100));
    t.on_preempt(at(200));
    t.on_preempt(at(900));
    assert_eq!(t.total_runtime, 100);
}

#[test]
fn slice_expires_after_ten_milliseconds() {
    let mut t = SchedTask::new();
    assert_eq!(RR_TIME_SLICE_NANOS, 10_000_000);
    t.on_dispatch(at(5_000_000));
    assert!(!t.tick(at(5_000_000)));
    assert!(!t.tick(at(14_999_999)));
    assert!(t.tick(at(15_000_000)));
    assert!(t.tick(at(40_000_000)));
}

#[test]
fn no_slice_while_queued_or_preempted() {
    let mut t = SchedTask::new();
    t.on_dispatch(at(0));
    t.on_enqueue(at(1));
    assert!(!t.tick(at(100_000_000)));
    t.on_dispatch(at(2));
    t.on_preempt(at(3));
    assert!(!t.tick(at(100_000_000)));
}

#[test]
fn clock_reading_before_window_gives_zero() {
    let mut t = SchedTask::new();
    t.on_enqueue(at(1_000));
    t.on_dispatch(at(500));
    assert_eq!(t.total_wait_time, 0);
    t.on_preempt(at(100));
    assert_eq!(t.total_runtime, 0);
    t.on_dispatch(at(1_000));
    assert!(!t.tick(at(0)));
}

#[test]
fn totals_saturate_at_duration_max() {
    let mut t = SchedTask::new();
    t.total_wait_time = DURATION_MAX_NANOS - 5;
    t.on_enqueue(at(0));
    t.on_dispatch(at(100));
    assert_eq!(t.total_wait_time, DURATION_MAX_NANOS);
    t.total_runtime = DURATION_MAX_NANOS - 100;
    t.on_preempt(at(150));
    assert_eq!(t.total_runtime, DURATION_MAX_NANOS - 50);
}

#[test]
fn duration_max_matches_std() {
    assert_eq!(DURATION_MAX_NANOS, std::time::Duration::MAX.as_nanos());
}

#[test]
fn schedulable_task_starts_fresh() {
    let t = SchedulableTask::new(Box::new(7u32));
    assert_eq!(*t.task, 7);
    assert_eq!(t.v_eligible, 0);
    assert_eq!(t.v_deadline, 0);
    assert_eq!(t.sched.total_wait_time, 0);
    assert_eq!(**t, 7);
}

#[test]
fn weight_is_base() {
    let t = SchedulableTask::new(Box::new(()));
    assert_eq!(t.weight(), SCHED_WEIGHT_BASE);
    assert_eq!(t.weight(), 1024);
}

#[test]
fn compare_with_orders_by_deadline() {
    let mut a = SchedulableTask::new(Box::new(1u8));
    let mut b = SchedulableTask::new(Box::new(2u8));
    a.re_enqueue(at(100));
    b.re_enqueue(at(200));
    assert_eq!(a.compare_with(&b), Ordering::Less);
    assert_eq!(b.compare_with(&a), Ordering::Greater);
    assert_eq!(a.compare_with(&a), Ordering::Equal);
    a.re_enqueue(at(300));
    assert_eq!(a.compare_with(&b), Ordering::Greater);
}

#[test]
fn re_enqueue_accounts_runtime_and_opens_wait() {
    let mut t = SchedulableTask::new(Box::new(0u8));
    t.v_eligible = 9;
    t.inserting_into_runqueue(0, Some(at(1_000)));
    t.about_to_execute(at(3_000));
    assert_eq!(t.sched.total_wait_time, 2_000);
    assert!(!t.tick(at(13_000)));
    assert!(t.tick(at(10_003_000)));
    t.re_enqueue(at(8_000));
    assert_eq!(t.sched.total_runtime, 5_000);
    assert_eq!(t.v_deadline, 8_000);
    assert_eq!(t.v_eligible, 0);
    assert!(!t.tick(at(100_000_000)));
    t.about_to_execute(at(8_500));
    assert_eq!(t.sched.total_wait_time, 2_500);
}

#[test]
fn inserting_without_clock_only_makes_eligible() {
    let mut t = SchedulableTask::new(Box::new(0u8));
    t.about_to_execute(at(100));
    t.v_eligible = 5;
    t.v_deadline = 42;
    t.inserting_into_runqueue(77, None);
    assert_eq!(t.v_eligible, 0);
    assert_eq!(t.v_deadline, 42);
    assert_eq!(t.sched.total_runtime, 0);
    assert!(t.tick(at(20_000_000)));
}

#[test]
fn inserting_with_clock_closes_slice() {
    let mut t = SchedulableTask::new(Box::new(0u8));
    t.about_to_execute(at(100));
    t.inserting_into_runqueue(0, Some(at(600)));
    assert_eq!(t.sched.total_runtime, 500);
    assert_eq!(t.v_deadline, 600);
    assert!(!t.tick(at(100_000_000)));
}

#[test]
fn instant_elapsed() {
    assert_eq!(at(10).elapsed_since(at(4)), 6);
    assert_eq!(at(4).elapsed_since(at(10)), 0);
    assert_eq!(at(123).ticks(), 123);
}

#[test]
fn getters_match_fields() {
    let mut t = SchedTask::new();
    t.on_enqueue(at(10));
    t.on_dispatch(at(25));
    t.on_preempt(at(100));
    assert_eq!(t.total_wait_time(), 15);
    assert_eq!(t.total_runtime(), 75);
    assert_eq!(t.total_wait_time(), t.total_wait_time);
    assert_eq!(t.total_runtime(), t.total_runtime);
    assert_eq!(t.enqueue_time, None);
    assert_eq!(t.slice_start, None);
}

#[test]
fn round_robin_runs_every_task_within_n_selections() {
    let n = 4usize;
    let mut queue: Vec<SchedulableTask<usize>> = Vec::new();
    for i in 0..n {
        let mut t = *SchedulableTask::new(Box::new(i));
        t.inserting_into_runqueue(0, Some(at(1_000 + i as u64)));
        queue.push(t);
    }
    let mut now = 10_000u64;
    let mut picks = Vec::new();
    let mut last_enqueue: Vec<Option<u64>> = vec![None; n];
    for _ in 0..(3 * n) {
        let pick = (0..n)
            .min_by(|&a, &b| queue[a].compare_with(&queue[b]))
            .unwrap();
        picks.push(*queue[pick].task);
        if let Some(t) = last_enqueue[pick] {
            assert!(now - t <= (n as u64 - 1) * RR_TIME_SLICE_NANOS);
        }
        queue[pick].about_to_execute(at(now));
        now += RR_TIME_SLICE_NANOS;
        queue[pick].re_enqueue(at(now));
        last_enqueue[pick] = Some(now);
    }
    for w in 0..=(picks.len() - n) {
        let mut seen = picks[w..w + n].to_vec();
        seen.sort();
        assert_eq!(seen, (0..n).collect::<Vec<_>>());
    }
    // Each task waited (n - 1) slices between its runs.
    for t in &queue {
        assert!(t.sched.total_wait_time() >= (n as u128 - 1) * RR_TIME_SLICE_NANOS as u128);
        assert_eq!(t.sched.total_runtime(), 3 * RR_TIME_SLICE_NANOS as u128);
    }
}
