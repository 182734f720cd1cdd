//! The periodic timer that gates how often a progress line is rendered.

use std::time::{Duration, Instant};
use vstd::prelude::*;

verus! {

/// Length of one refresh period, in milliseconds.
pub const PERIOD_MS: u64 = 1000;

#[verifier::external_type_specification]
#[verifier::external_body]
pub struct ExInstant(Instant);

/// Relies on `std::time::Instant::now`: a reading of the monotonic clock.
#[verifier::external_body]
pub(crate) fn instant_now() -> (r: Instant) {
    Instant::now()
}

/// Relies on `Instant::saturating_duration_since`: the time from `earlier`
/// to `now`, or zero when `earlier` is the later of the two; never panics.
#[verifier::external_body]
fn time_between(now: &Instant, earlier: &Instant) -> (d: Duration) {
    now.saturating_duration_since(*earlier)
}

/// Relies on `Duration::as_millis`: the duration in whole milliseconds,
/// truncated here to 64 bits.
#[verifier::external_body]
fn duration_millis(d: &Duration) -> (ms: u64) {
    d.as_millis() as u64
}

/// Reads the clock once: the new instant, and the milliseconds that passed
/// between `earlier` and it. How much time passed is the clock's to decide,
/// so nothing is stated of the count.
pub(crate) fn clock_sample(earlier: &Instant) -> (r: (Instant, u64)) {
    let now = instant_now();
    let elapsed = duration_millis(&time_between(&now, earlier));
    (now, elapsed)
}

/// Tracks the time since the last statistics update (`delta`) and a countdown
/// toward the next display refresh. `ready` signals that a refresh is due; it
/// is set by `update` and only ever cleared by the consumer of the signal.
pub struct Timer {
    pub last_instant: Instant,
    pub delta: u64,
    pub period: u64,
    pub countdown: u64,
    pub ready: bool,
}

impl Timer {
    /// The timer's invariant: the period is one second and the countdown
    /// never exceeds it.
    pub open spec fn wf(&self) -> bool {
        &&& self.period == PERIOD_MS
        &&& self.countdown <= self.period
    }

    /// A fresh timer is immediately ready, so the very first update renders.
    pub fn new() -> (t: Timer)
        ensures
            t.wf(),
            t.delta == 0,
            t.period == PERIOD_MS,
            t.countdown == 0,
            t.ready,
    {
        Timer {
            last_instant: instant_now(),
            delta: 0,
            period: PERIOD_MS,
            countdown: 0,
            ready: true,
        }
    }

    /// The countdown step of `update`, on a known elapsed time: subtract
    /// `delta_ms` from the countdown; when that would underflow, restart the
    /// countdown at one period and signal readiness. `ready`, once set, is
    /// never cleared here: only the consumer of the signal resets it.
    pub fn advance(&mut self, delta_ms: u64)
        ensures
            old(self).wf() ==> final(self).wf(),
            final(self).period == old(self).period,
            final(self).last_instant == old(self).last_instant,
            final(self).delta == delta_ms,
            final(self).countdown == if delta_ms <= old(self).countdown {
                (old(self).countdown - delta_ms) as u64
            } else {
                old(self).period
            },
            final(self).ready == (old(self).ready || delta_ms > old(self).countdown),
            old(self).ready ==> final(self).ready,
    {
        self.delta = delta_ms;
        if delta_ms <= self.countdown {
            self.countdown = self.countdown - delta_ms;
        } else {
            self.countdown = self.period;
            self.ready = true;
        }
    }

    /// Reads the clock and advances the countdown by the time elapsed since
    /// the previous update. How much time passed is the clock's to decide;
    /// every other field is pinned down in terms of the new `delta`.
    pub fn update(&mut self)
        ensures
            old(self).wf() ==> final(self).wf(),
            final(self).period == old(self).period,
            final(self).countdown == if final(self).delta <= old(self).countdown {
                (old(self).countdown - final(self).delta) as u64
            } else {
                old(self).period
            },
            final(self).ready == (old(self).ready || final(self).delta > old(self).countdown),
            old(self).ready ==> final(self).ready,
    {
        let (now, delta_ms) = clock_sample(&self.last_instant);
        self.last_instant = now;
        self.advance(delta_ms);
    }
}

} // verus!
