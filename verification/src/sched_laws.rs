use vstd::prelude::*;

use crate::sched_task::{deadline_order, SchedTaskView, SchedulableTask, RR_TIME_SLICE_NANOS};
use crate::time::{elapsed_nanos, saturating_span_add, Instant};

verus! {

/// Waiting is accounted from enqueue to dispatch: a task queued at `t0` and
/// dispatched at `t1` adds the time between them to its total wait, starts
/// its slice at `t1`, and leaves its runtime alone.
pub proof fn lemma_wait_window(v: SchedTaskView, t0: Instant, t1: Instant)
    ensures
        v.after_enqueue(t0).after_dispatch(t1).total_wait == saturating_span_add(
            v.total_wait as int,
            elapsed_nanos(t0, t1) as int,
        ),
        v.after_enqueue(t0).after_dispatch(t1).total_runtime == v.total_runtime,
        v.after_enqueue(t0).after_dispatch(t1).slice_started_at == Some(t1),
        v.after_enqueue(t0).after_dispatch(t1).enqueued_at.is_none(),
{
}

/// Running is accounted from dispatch to preemption: a task dispatched at
/// `t1` and preempted at `t2` adds the time between them to its runtime,
/// closes its slice, and leaves its total wait as the dispatch left it.
pub proof fn lemma_runtime_window(v: SchedTaskView, t1: Instant, t2: Instant)
    ensures
        v.after_dispatch(t1).after_preempt(t2).total_runtime == saturating_span_add(
            v.total_runtime as int,
            elapsed_nanos(t1, t2) as int,
        ),
        v.after_dispatch(t1).after_preempt(t2).total_wait == v.after_dispatch(t1).total_wait,
        v.after_dispatch(t1).after_preempt(t2).slice_started_at.is_none(),
{
}

/// One full Round-Robin turn (queued at `t0`, dispatched at `t1`, preempted at
/// `t2`) adds exactly the queueing time to the wait and the running time to
/// the runtime, and leaves the task with no slice open.
pub proof fn lemma_round_accounting(v: SchedTaskView, t0: Instant, t1: Instant, t2: Instant)
    ensures
        ({
            let w = v.after_enqueue(t0).after_dispatch(t1).after_preempt(t2);
            &&& w.total_wait == saturating_span_add(v.total_wait as int, elapsed_nanos(t0, t1) as int)
            &&& w.total_runtime == saturating_span_add(
                v.total_runtime as int,
                elapsed_nanos(t1, t2) as int,
            )
            &&& w.slice_started_at.is_none()
            &&& w.enqueued_at.is_none()
        }),
{
}

/// A slice started at `t1` expires exactly once a full quantum, 10 ms, has
/// elapsed.
pub proof fn lemma_slice_expiry(v: SchedTaskView, t1: Instant, t: Instant)
    ensures
        v.after_dispatch(t1).slice_expired(t) <==> t.ticks >= t1.ticks + RR_TIME_SLICE_NANOS,
        v.after_dispatch(t1).slice_expired(t) <==> t.ticks - t1.ticks >= 10_000_000,
{
}

/// A task that waits in the run queue, or has been preempted, has no slice
/// that could expire.
pub proof fn lemma_no_expiry_off_cpu(v: SchedTaskView, t0: Instant, t: Instant)
    ensures
        !v.after_enqueue(t0).slice_expired(t),
        !v.after_preempt(t0).slice_expired(t),
{
}

/// Closing a window that is not open changes nothing: a second preemption
/// is a no-op, and a dispatch with no wait window open adds no waiting time.
pub proof fn lemma_closing_closed_windows(v: SchedTaskView, t: Instant, u: Instant)
    ensures
        v.after_preempt(t).after_preempt(u) == v.after_preempt(t),
        v.enqueued_at.is_none() ==> v.after_dispatch(u).total_wait == v.total_wait,
{
}

/// Accumulated times never decrease and stay within the range of a
/// `Duration`, whatever the order of the lifecycle events.
pub proof fn lemma_totals_monotone(v: SchedTaskView, t: Instant)
    requires
        v.totals_in_range(),
    ensures
        v.after_enqueue(t).totals_in_range(),
        v.after_dispatch(t).totals_in_range(),
        v.after_preempt(t).totals_in_range(),
        v.after_enqueue(t).total_wait == v.total_wait,
        v.after_enqueue(t).total_runtime == v.total_runtime,
        v.after_dispatch(t).total_wait >= v.total_wait,
        v.after_dispatch(t).total_runtime == v.total_runtime,
        v.after_preempt(t).total_wait == v.total_wait,
        v.after_preempt(t).total_runtime >= v.total_runtime,
{
}

/// The initial state is in range.
pub proof fn lemma_initial_in_range()
    ensures
        SchedTaskView::initial().totals_in_range(),
{
}

/// The deadline order is a total order consistent with `<` on deadlines:
/// swapping the tasks swaps `Less` and `Greater`, and `Equal` means equal
/// deadlines.
pub proof fn lemma_deadline_order_total(a: u128, b: u128, c: u128)
    ensures
        (deadline_order(a, b) == std::cmp::Ordering::Less) <==> (deadline_order(b, a)
            == std::cmp::Ordering::Greater),
        (deadline_order(a, b) == std::cmp::Ordering::Equal) <==> a == b,
        deadline_order(a, b) == std::cmp::Ordering::Less && deadline_order(b, c)
            == std::cmp::Ordering::Less ==> deadline_order(a, c) == std::cmp::Ordering::Less,
{
}

/// FIFO: of two tasks whose deadlines were set by enqueueing at `t1` and
/// `t2`, the one queued earlier is selected first.
pub proof fn lemma_fifo<T>(a: SchedulableTask<T>, b: SchedulableTask<T>, t1: Instant, t2: Instant)
    requires
        a.v_deadline == t1.ticks,
        b.v_deadline == t2.ticks,
        t1.ticks < t2.ticks,
    ensures
        deadline_order(a.v_deadline, b.v_deadline) == std::cmp::Ordering::Less,
        deadline_order(b.v_deadline, a.v_deadline) == std::cmp::Ordering::Greater,
{
}

/// One Round-Robin selection over a run queue whose virtual deadlines are
/// `d`: the task `pick` is one that `compare_with` orders first (no deadline
/// is earlier than its own), it runs, and `re_enqueue` gives it the deadline
/// `t`, a clock reading later than every deadline in the queue; the queue's
/// deadlines become `next`.
pub open spec fn rr_step(d: Seq<u128>, pick: int, t: u128, next: Seq<u128>) -> bool {
    &&& 0 <= pick < d.len()
    &&& forall|j: int|
        0 <= j < d.len() ==> deadline_order(d[pick], #[trigger] d[j])
            != std::cmp::Ordering::Greater
    &&& forall|j: int| 0 <= j < d.len() ==> #[trigger] d[j] < t
    &&& next == d.update(pick, t)
}

/// Selection `k` of a run is a Round-Robin selection.
pub open spec fn rr_run_step(states: Seq<Seq<u128>>, picks: Seq<int>, times: Seq<u128>, k: int) -> bool {
    rr_step(states[k], picks[k], times[k], states[k + 1])
}

/// A run of consecutive selections: `states[k]` are the queue's deadlines
/// before selection `k`, which picks `picks[k]` and re-enqueues it at
/// `times[k]`.
pub open spec fn rr_run(states: Seq<Seq<u128>>, picks: Seq<int>, times: Seq<u128>) -> bool {
    &&& states.len() == picks.len() + 1
    &&& times.len() == picks.len()
    &&& forall|k: int| 0 <= k < picks.len() ==> #[trigger] rr_run_step(states, picks, times, k)
}

/// The queue keeps its size along a run.
proof fn lemma_run_size(states: Seq<Seq<u128>>, picks: Seq<int>, times: Seq<u128>, k: int)
    requires
        rr_run(states, picks, times),
        0 <= k < states.len(),
    ensures
        states[k].len() == states[0].len(),
    decreases k,
{
    if k > 0 {
        lemma_run_size(states, picks, times, k - 1);
        assert(rr_run_step(states, picks, times, k - 1));
    }
}

/// Distinct task indices below `n`: there are at most `n` of them, fewer
/// than `n` leave one out, and exactly `n` cover them all.
proof fn lemma_distinct_indices(p: Seq<int>, n: nat)
    requires
        p.no_duplicates(),
        forall|k: int| 0 <= k < p.len() ==> 0 <= #[trigger] p[k] < n,
    ensures
        p.len() <= n,
        p.len() < n ==> exists|u: int| 0 <= u < n && !p.contains(u),
        p.len() == n ==> forall|u: int| 0 <= u < n ==> p.contains(u),
{
    let s = p.to_set();
    let r = vstd::set_lib::set_int_range(0, n as int);
    vstd::set_lib::lemma_int_range(0, n as int);
    p.unique_seq_to_set();
    assert(s.subset_of(r)) by {
        assert forall|x: int| s.contains(x) implies r.contains(x) by {
            let k = choose|k: int| 0 <= k < p.len() && p[k] == x;
        }
    }
    vstd::set_lib::lemma_len_subset(s, r);
    if p.len() < n {
        if forall|u: int| 0 <= u < n ==> p.contains(u) {
            assert(r.subset_of(s));
            vstd::seq_lib::seq_to_set_is_finite(p);
            vstd::set_lib::lemma_len_subset(r, s);
        }
    }
    if p.len() == n {
        assert forall|u: int| 0 <= u < n implies p.contains(u) by {
            if !p.contains(u) {
                assert(s.subset_of(r.remove(u)));
                vstd::set_lib::lemma_len_subset(s, r.remove(u));
            }
        }
    }
}

/// The first `m` selections of a window starting at `s` pick distinct tasks,
/// and every task picked so far has a later deadline than every task not
/// picked yet.
proof fn lemma_window_prefix(
    states: Seq<Seq<u128>>,
    picks: Seq<int>,
    times: Seq<u128>,
    s: int,
    m: int,
)
    requires
        rr_run(states, picks, times),
        0 <= s,
        0 <= m <= states[s].len(),
        s + m <= picks.len(),
    ensures
        states[s + m].len() == states[s].len(),
        picks.subrange(s, s + m).no_duplicates(),
        forall|k: int| s <= k < s + m ==> 0 <= #[trigger] picks[k] < states[s].len(),
        forall|j: int, u: int|
            picks.subrange(s, s + m).contains(j) && 0 <= u < states[s].len()
                && !picks.subrange(s, s + m).contains(u) ==> #[trigger] states[s + m][j]
                > #[trigger] states[s + m][u],
    decreases m,
{
    let n = states[s].len();
    if m > 0 {
        lemma_window_prefix(states, picks, times, s, m - 1);
        let w = picks.subrange(s, s + m - 1);
        let d = states[s + m - 1];
        let p = picks[s + m - 1];
        let t = times[s + m - 1];
        assert(rr_run_step(states, picks, times, s + m - 1));
        assert(rr_step(d, p, t, states[s + m]));
        lemma_distinct_indices(w, n);
        let u0 = choose|u: int| 0 <= u < n && !w.contains(u);
        assert(deadline_order(d[p], d[u0]) != std::cmp::Ordering::Greater);
        assert(!w.contains(p));
        let w2 = picks.subrange(s, s + m);
        assert(w2 =~= w.push(p));
        assert forall|j: int, u: int|
            w2.contains(j) && 0 <= u < n && !w2.contains(u) implies #[trigger] states[s
            + m][j] > #[trigger] states[s + m][u] by {
            assert(w2[m - 1] == p);
            assert(u != p);
            assert(!w.contains(u));
            if j == p {
            } else {
                let kj = choose|k: int| 0 <= k < w2.len() && w2[k] == j;
                assert(w.contains(j)) by {
                    assert(w[kj] == j);
                }
            }
        }
        assert forall|k: int| s <= k < s + m implies 0 <= #[trigger] picks[k] < n by {
            if k < s + m - 1 {
                assert(w[k - s] == picks[k]);
            }
        }
    } else {
        assert(picks.subrange(s, s) =~= Seq::<int>::empty());
    }
}

/// No starvation: with `N` tasks in the run queue, where each selection runs
/// a task that `compare_with` orders first and `re_enqueue` puts it behind
/// every queued deadline, any `N` consecutive selections run every task
/// exactly once.
pub proof fn lemma_no_starvation(
    states: Seq<Seq<u128>>,
    picks: Seq<int>,
    times: Seq<u128>,
    s: int,
)
    requires
        rr_run(states, picks, times),
        0 <= s,
        s + states[0].len() <= picks.len(),
    ensures
        picks.subrange(s, s + states[0].len()).no_duplicates(),
        forall|i: int|
            0 <= i < states[0].len() ==> #[trigger] picks.subrange(
                s,
                s + states[0].len(),
            ).contains(i),
{
    let n = states[0].len();
    lemma_run_size(states, picks, times, s);
    lemma_window_prefix(states, picks, times, s, n as int);
    let w = picks.subrange(s, s + n);
    assert forall|k: int| 0 <= k < w.len() implies 0 <= #[trigger] w[k] < n by {
        assert(w[k] == picks[s + k]);
    }
    lemma_distinct_indices(w, n);
}

/// Bounded wait: a task that runs at selection `a` runs again within the
/// next `N` selections; when every run lasts one Round-Robin slice, it waits
/// at most `(N - 1)` slices, i.e. `(N - 1) x 10 ms`.
pub proof fn lemma_bounded_wait(
    states: Seq<Seq<u128>>,
    picks: Seq<int>,
    times: Seq<u128>,
    a: int,
)
    requires
        rr_run(states, picks, times),
        0 <= a,
        a + 1 + states[0].len() <= picks.len(),
    ensures
        exists|b: int|
            a < b <= a + states[0].len() && #[trigger] picks[b] == picks[a] && (b - a - 1)
                * RR_TIME_SLICE_NANOS <= (states[0].len() - 1) * RR_TIME_SLICE_NANOS,
{
    let n = states[0].len();
    lemma_run_size(states, picks, times, a);
    assert(rr_run_step(states, picks, times, a));
    lemma_no_starvation(states, picks, times, a + 1);
    let w = picks.subrange(a + 1, a + 1 + n);
    assert(w.contains(picks[a]));
    let k = choose|k: int| 0 <= k < w.len() && w[k] == picks[a];
    let b = a + 1 + k;
    assert(picks[b] == picks[a]);
    assert((b - a - 1) * RR_TIME_SLICE_NANOS <= (n - 1) * RR_TIME_SLICE_NANOS);
}

/// Runs back to back on one CPU: selection `k` is dispatched at
/// `starts[k]` and re-enqueued at `times[k]`, after running at most one
/// Round-Robin slice, and the next selection is dispatched as it is
/// re-enqueued.
pub open spec fn back_to_back(starts: Seq<u128>, times: Seq<u128>) -> bool {
    &&& starts.len() == times.len()
    &&& forall|k: int|
        0 <= k < times.len() ==> starts[k] <= #[trigger] times[k] <= starts[k]
            + RR_TIME_SLICE_NANOS
    &&& forall|k: int| 0 <= k < times.len() - 1 ==> starts[k + 1] == #[trigger] times[k]
}

/// Between the end of run `a` and the start of run `j`, at most one slice
/// passes per run in between.
proof fn lemma_clock_between(starts: Seq<u128>, times: Seq<u128>, a: int, j: int)
    requires
        back_to_back(starts, times),
        0 <= a < j < times.len(),
    ensures
        starts[j] - times[a] <= (j - a - 1) * RR_TIME_SLICE_NANOS,
    decreases j - a,
{
    if j > a + 1 {
        lemma_clock_between(starts, times, a, j - 1);
        assert(starts[j] == times[j - 1]);
        assert(times[j - 1] <= starts[j - 1] + RR_TIME_SLICE_NANOS);
    } else {
        assert(starts[a + 1] == times[a]);
    }
}

/// Bounded wait in clock time: with `N` tasks running back to back, each for
/// at most one slice, a task re-enqueued at the end of run `a` is dispatched
/// again, by a later selection within the next `N`, no more than
/// `(N - 1) x 10 ms` after it was re-enqueued.
pub proof fn lemma_bounded_wait_clock(
    states: Seq<Seq<u128>>,
    picks: Seq<int>,
    times: Seq<u128>,
    starts: Seq<u128>,
    a: int,
)
    requires
        rr_run(states, picks, times),
        back_to_back(starts, times),
        0 <= a,
        a + 1 + states[0].len() <= picks.len(),
    ensures
        exists|b: int|
            a < b <= a + states[0].len() && #[trigger] picks[b] == picks[a] && starts[b]
                - times[a] <= (states[0].len() - 1) * RR_TIME_SLICE_NANOS,
{
    let n = states[0].len();
    lemma_no_starvation(states, picks, times, a + 1);
    let w = picks.subrange(a + 1, a + 1 + n);
    assert(w.contains(picks[a])) by {
        lemma_run_size(states, picks, times, a);
        assert(rr_run_step(states, picks, times, a));
    }
    let k = choose|k: int| 0 <= k < w.len() && w[k] == picks[a];
    let b = a + 1 + k;
    assert(picks[b] == picks[a]);
    lemma_clock_between(starts, times, a, b);
    assert((b - a - 1) * RR_TIME_SLICE_NANOS <= (n - 1) * RR_TIME_SLICE_NANOS);
}

/// Exact accounting in clock ticks: a task queued at `t0` and dispatched at
/// `t1 >= t0` waited exactly `t1 - t0` more, and one dispatched at `t1` and
/// preempted at `t2 >= t1` ran exactly `t2 - t1` more, unless the total
/// reaches the largest duration, where it stays.
pub proof fn lemma_exact_accounting(v: SchedTaskView, t0: Instant, t1: Instant, t2: Instant)
    requires
        t0.ticks <= t1.ticks <= t2.ticks,
    ensures
        v.total_wait + (t1.ticks - t0.ticks) <= crate::time::DURATION_MAX_NANOS ==> v.after_enqueue(
            t0,
        ).after_dispatch(t1).total_wait == v.total_wait + (t1.ticks - t0.ticks),
        v.total_wait + (t1.ticks - t0.ticks) > crate::time::DURATION_MAX_NANOS ==> v.after_enqueue(
            t0,
        ).after_dispatch(t1).total_wait == crate::time::DURATION_MAX_NANOS,
        v.total_runtime + (t2.ticks - t1.ticks) <= crate::time::DURATION_MAX_NANOS
            ==> v.after_dispatch(t1).after_preempt(t2).total_runtime == v.total_runtime + (t2.ticks
            - t1.ticks),
        v.total_runtime + (t2.ticks - t1.ticks) > crate::time::DURATION_MAX_NANOS
            ==> v.after_dispatch(t1).after_preempt(t2).total_runtime
            == crate::time::DURATION_MAX_NANOS,
{
}

} // verus!
