use vstd::prelude::*;

verus! {

/// The largest span a `core::time::Duration` can hold, in nanoseconds
/// (`u64::MAX` seconds plus 999_999_999 nanoseconds).
pub const DURATION_MAX_NANOS: u128 = 18_446_744_073_709_551_615_999_999_999u128;

/// A reading of the kernel's monotonic clock, in nanoseconds (ticks).
#[derive(Clone, Copy, Debug, PartialEq, Eq, Structural)]
pub struct Instant {
    pub ticks: u64,
}

/// Time elapsed from `earlier` to `later`; a reading that lies before
/// `earlier` gives no elapsed time.
pub open spec fn elapsed_nanos(earlier: Instant, later: Instant) -> nat {
    if later.ticks >= earlier.ticks {
        (later.ticks - earlier.ticks) as nat
    } else {
        0
    }
}

/// `total + span`, held at `DURATION_MAX_NANOS` where it would exceed it,
/// as `Duration::saturating_add` does.
pub open spec fn saturating_span_add(total: int, span: int) -> int {
    if total + span > DURATION_MAX_NANOS {
        DURATION_MAX_NANOS as int
    } else {
        total + span
    }
}

impl Instant {
    /// The instant `ticks` nanoseconds after the clock's origin.
    pub fn from_ticks(ticks: u64) -> (r: Instant)
        ensures
            r.ticks == ticks,
    {
        Instant { ticks }
    }

    /// The raw clock reading.
    pub fn ticks(&self) -> (r: u64)
        ensures
            r == self.ticks,
    {
        self.ticks
    }

    /// Nanoseconds from `earlier` to `self` (zero when `self` lies before `earlier`).
    pub fn elapsed_since(&self, earlier: Instant) -> (r: u64)
        ensures
            r == elapsed_nanos(earlier, *self),
    {
        if self.ticks >= earlier.ticks {
            self.ticks - earlier.ticks
        } else {
            0
        }
    }
}

/// Adds `span` nanoseconds to an accumulated `total`, saturating at the
/// largest representable duration.
pub fn saturating_span_add_exec(total: u128, span: u64) -> (r: u128)
    ensures
        r == saturating_span_add(total as int, span as int),
{
    let s: u128 = span as u128;
    if total >= DURATION_MAX_NANOS || s > DURATION_MAX_NANOS - total {
        DURATION_MAX_NANOS
    } else {
        total + s
    }
}

/// Elapsed time is the distance between the readings: added to the earlier
/// reading it gives the later one, and it is zero only for equal or earlier
/// later readings.
pub proof fn lemma_elapsed_is_distance(earlier: Instant, later: Instant)
    ensures
        earlier.ticks <= later.ticks ==> earlier.ticks + elapsed_nanos(earlier, later)
            == later.ticks,
        later.ticks < earlier.ticks ==> elapsed_nanos(earlier, later) == 0,
{
}

/// Elapsed times add up along ordered readings.
pub proof fn lemma_elapsed_additive(a: Instant, b: Instant, c: Instant)
    requires
        a.ticks <= b.ticks <= c.ticks,
    ensures
        elapsed_nanos(a, b) + elapsed_nanos(b, c) == elapsed_nanos(a, c),
{
}

/// Saturating addition is exact below the largest duration and holds at it
/// above.
pub proof fn lemma_saturating_span_add(total: int, span: int)
    ensures
        total + span <= DURATION_MAX_NANOS ==> saturating_span_add(total, span) == total + span,
        total + span > DURATION_MAX_NANOS ==> saturating_span_add(total, span)
            == DURATION_MAX_NANOS,
        DURATION_MAX_NANOS == 0xffff_ffff_ffff_ffff * 1_000_000_000 + 999_999_999,
{
}

} // verus!
