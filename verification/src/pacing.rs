//! Render-tick pacing telemetry: watch the interval between render ticks and report when the
//! render loop stops hitting its frame budget.
//!
//! The interval matters more than a tick's own duration: ticks that arrive with no idle gap
//! between them mean the event loop never sleeps and every other source — remote input,
//! Wayland traffic, control commands — is starved behind the render timer.
//!
//! A summary is produced per window of ticks (about two seconds' worth), or after two seconds
//! of wall clock, whichever comes first, so a degrading loop gets louder rather than quieter.
//! A window misses its budget when the mean interval exceeds the budget by a quarter (the loop
//! achieving under about 80% of the requested rate); one tick landing a little late is timer
//! granularity, not starvation.

use vstd::prelude::*;
use crate::clock::nanos_since;

verus! {

/// Report at least this often, in nanoseconds, even if the tick window has not filled.
pub const REPORT_INTERVAL_NS: u64 = 2_000_000_000;

/// One window's summary.
#[derive(Debug, Clone, Copy, PartialEq, Eq)]
pub struct PacingReport {
    /// Intervals in the window.
    pub ticks: u32,
    /// Mean interval, in nanoseconds (rounded down).
    pub mean_ns: u64,
    /// Longest interval, in nanoseconds.
    pub max_ns: u64,
    /// The per-frame interval the session aims for, in nanoseconds.
    pub budget_ns: u64,
    /// The frame rate asked for.
    pub target_fps: u32,
    /// Whether the mean interval exceeded the budget by more than a quarter.
    pub behind: bool,
}

/// Rolling render-tick interval stats over a window of ticks.
pub struct TickStats {
    /// The clock's origin; every time below is nanoseconds since it.
    origin: std::time::Instant,
    /// Ticks per reported window (two seconds' worth).
    window: u32,
    /// The per-frame interval the session is aiming for.
    budget_ns: u64,
    target_fps: u32,
    last: Option<u64>,
    last_report: u64,
    count: u32,
    sum_ns: u64,
    max_ns: u64,
}

/// `fps` with zero read as one.
pub open spec fn target(fps: u32) -> u32 {
    if fps >= 1 { fps } else { 1 }
}

/// `a - b`, or zero when `b` is later.
pub open spec fn since(a: u64, b: u64) -> u64 {
    if a >= b { (a - b) as u64 } else { 0 }
}

/// `a + b`, held at `u64::MAX`.
pub open spec fn add_sat(a: u64, b: u64) -> u64 {
    if a + b <= u64::MAX { (a + b) as u64 } else { u64::MAX }
}

impl TickStats {
    /// Ticks per window.
    pub closed spec fn spec_window(&self) -> u32 {
        self.window
    }

    /// The frame budget in nanoseconds.
    pub closed spec fn spec_budget(&self) -> u64 {
        self.budget_ns
    }

    /// The target frame rate.
    pub closed spec fn spec_target_fps(&self) -> u32 {
        self.target_fps
    }

    /// When the last tick ran, if one has.
    pub closed spec fn spec_last(&self) -> Option<u64> {
        self.last
    }

    /// When the last summary was produced (or the stats were created).
    pub closed spec fn spec_last_report(&self) -> u64 {
        self.last_report
    }

    /// Intervals counted in the current window.
    pub closed spec fn spec_count(&self) -> u32 {
        self.count
    }

    /// Their total, in nanoseconds.
    pub closed spec fn spec_sum(&self) -> u64 {
        self.sum_ns
    }

    /// The longest of them, in nanoseconds.
    pub closed spec fn spec_max(&self) -> u64 {
        self.max_ns
    }

    /// What holds between ticks: the window is not empty, the current window holds fewer
    /// intervals than a full one, the longest interval is no more than their total, and an
    /// empty window has nothing summed.
    pub open spec fn well_formed(&self) -> bool {
        &&& self.spec_window() >= 1
        &&& self.spec_count() < self.spec_window()
        &&& self.spec_max() <= self.spec_sum()
        &&& (self.spec_count() == 0 ==> self.spec_sum() == 0 && self.spec_max() == 0)
    }

    /// Stats for a session at `fps` (zero read as one): a window of two seconds of ticks, a
    /// budget of one frame interval, and the clock started now.
    pub fn new(fps: u32) -> (s: Self)
        ensures
            s.spec_target_fps() == target(fps),
            s.spec_window() == if 2 * target(fps) <= u32::MAX { 2 * target(fps) } else { u32::MAX as int },
            s.spec_budget() == 1_000_000_000int / (target(fps) as int),
            s.spec_last() is None,
            s.spec_last_report() == 0,
            s.spec_count() == 0,
            s.spec_sum() == 0,
            s.spec_max() == 0,
            s.well_formed(),
    {
        let fps: u32 = if fps >= 1 { fps } else { 1 };
        let window: u32 = if fps <= u32::MAX / 2 { fps * 2 } else { u32::MAX };
        TickStats {
            origin: std::time::Instant::now(),
            window,
            budget_ns: 1_000_000_000u64 / (fps as u64),
            target_fps: fps,
            last: None,
            last_report: 0,
            count: 0,
            sum_ns: 0,
            max_ns: 0,
        }
    }

    /// Record that a render tick just ran, reading the clock. Returns a summary when a window
    /// closes; what it holds depends on the clock, and [`TickStats::tick_at`] says how.
    pub fn tick(&mut self) -> (r: Option<PacingReport>)
        ensures
            final(self).spec_window() == old(self).spec_window(),
            final(self).spec_budget() == old(self).spec_budget(),
            final(self).spec_target_fps() == old(self).spec_target_fps(),
            final(self).spec_last() is Some,
            old(self).spec_last() is None ==> r is None,
            r matches Some(report) ==> report.budget_ns == old(self).spec_budget() && report.target_fps
                == old(self).spec_target_fps() && report.ticks >= 1,
            exists|now: u64| #[trigger] tick_relation(*old(self), now, *final(self), r),
            old(self).well_formed() ==> final(self).well_formed(),
    {
        let now = nanos_since(&self.origin);
        let r = self.tick_at(now);
        proof {
            assert(tick_relation(*old(self), now, *self, r));
        }
        r
    }

    /// Record a render tick at `now` nanoseconds. The first tick only sets the baseline. Every
    /// later one adds its interval (saturating) to the window; once the window holds
    /// `window` intervals, or `REPORT_INTERVAL_NS` have passed since the last summary, the
    /// summary is returned and the window restarts.
    pub fn tick_at(&mut self, now: u64) -> (r: Option<PacingReport>)
        ensures
            tick_relation(*old(self), now, *final(self), r),
            old(self).well_formed() ==> final(self).well_formed(),
    {
        let prev = match self.last {
            Some(p) => p,
            None => {
                // The first tick only establishes the baseline: there is no interval yet.
                self.last = Some(now);
                return None;
            },
        };
        self.last = Some(now);
        let dt: u64 = if now >= prev { now - prev } else { 0 };
        if self.count < u32::MAX {
            self.count = self.count + 1;
        }
        self.sum_ns = if self.sum_ns <= u64::MAX - dt { self.sum_ns + dt } else { u64::MAX };
        if dt > self.max_ns {
            self.max_ns = dt;
        }
        let since_report: u64 = if now >= self.last_report { now - self.last_report } else { 0 };
        if self.count >= self.window || since_report >= REPORT_INTERVAL_NS {
            let mean = self.sum_ns / (self.count as u64);
            let behind = (mean as u128) * 4 > (self.budget_ns as u128) * 5;
            let report = PacingReport {
                ticks: self.count,
                mean_ns: mean,
                max_ns: self.max_ns,
                budget_ns: self.budget_ns,
                target_fps: self.target_fps,
                behind,
            };
            self.last_report = now;
            self.count = 0;
            self.sum_ns = 0;
            self.max_ns = 0;
            return Some(report);
        }
        None
    }
}

/// When the render timer fires next, in nanoseconds on the same clock as its arguments: one
/// period after the deadline this tick was scheduled for, keeping the timer's phase; or, when
/// that is already past, one period from now, dropping the missed frames. Scheduling from the
/// deadline alone would fall behind for good after one slow tick — every later deadline would
/// already be past, the timer would always be ready, and the event loop would never idle.
pub open spec fn spec_next_deadline(deadline_ns: u64, now_ns: u64, period_ns: u64) -> int {
    if deadline_ns + period_ns <= now_ns {
        now_ns + period_ns
    } else {
        deadline_ns + period_ns
    }
}

/// When the render timer fires next; see [`spec_next_deadline`].
pub fn next_deadline(deadline_ns: u64, now_ns: u64, period_ns: u64) -> (next: u64)
    requires
        deadline_ns + period_ns <= u64::MAX,
        now_ns + period_ns <= u64::MAX,
    ensures
        next == spec_next_deadline(deadline_ns, now_ns, period_ns),
{
    let next = deadline_ns + period_ns;
    if next <= now_ns {
        now_ns + period_ns
    } else {
        next
    }
}

/// The render timer never schedules into the past: the next deadline is after now whenever
/// the period is positive. A tick that ran on time keeps the timer's phase exactly, and a tick
/// that fired at or after its deadline waits at most one period for the next.
pub proof fn law_the_timer_never_falls_behind(deadline_ns: u64, now_ns: u64, period_ns: u64)
    requires
        period_ns > 0,
    ensures
        spec_next_deadline(deadline_ns, now_ns, period_ns) > now_ns,
        deadline_ns + period_ns > now_ns ==> spec_next_deadline(deadline_ns, now_ns, period_ns) == deadline_ns
            + period_ns,
        deadline_ns <= now_ns ==> spec_next_deadline(deadline_ns, now_ns, period_ns) <= now_ns + period_ns,
{
}

/// What one tick at `now` does to the stats `before`, leaving `after` and answering `r`: see
/// [`TickStats::tick_at`].
pub open spec fn tick_relation(before: TickStats, now: u64, after: TickStats, r: Option<PacingReport>) -> bool {
        &&& after.spec_window() == before.spec_window()
        &&& after.spec_budget() == before.spec_budget()
        &&& after.spec_target_fps() == before.spec_target_fps()
        &&& after.spec_last() == Some(now)
        &&& before.spec_last() is None ==> {
            &&& r is None
            &&& after.spec_count() == before.spec_count()
            &&& after.spec_sum() == before.spec_sum()
            &&& after.spec_max() == before.spec_max()
            &&& after.spec_last_report() == before.spec_last_report()
        }
        &&& before.spec_last() matches Some(prev) ==> {
            let dt = since(now, prev);
            let count = if before.spec_count() < u32::MAX {
                before.spec_count() + 1
            } else {
                before.spec_count() as int
            };
            let sum = add_sat(before.spec_sum(), dt);
            let max = if dt > before.spec_max() { dt } else { before.spec_max() };
            let due = count >= before.spec_window() || since(now, before.spec_last_report())
                >= REPORT_INTERVAL_NS;
            if due {
                &&& r == Some(
                    PacingReport {
                        ticks: count as u32,
                        mean_ns: ((sum as int) / count) as u64,
                        max_ns: max,
                        budget_ns: before.spec_budget(),
                        target_fps: before.spec_target_fps(),
                        behind: 4 * ((sum as int) / count) > 5 * before.spec_budget(),
                    },
                )
                &&& after.spec_last_report() == now
                &&& after.spec_count() == 0
                &&& after.spec_sum() == 0
                &&& after.spec_max() == 0
            } else {
                &&& r is None
                &&& after.spec_last_report() == before.spec_last_report()
                &&& after.spec_count() == count
                &&& after.spec_sum() == sum
                &&& after.spec_max() == max
            }
        }
}

} // verus!
