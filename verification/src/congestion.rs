//! Shedding render ticks when the network, or the viewer's decoder, cannot take the frames
//! that are already being made.
//!
//! This is not congestion control and does not adapt the bitrate: the encoder's rate is fixed
//! when the session opens, so the only lever the render loop holds is how often it produces a
//! frame at all. Not producing frames that would be thrown away is strictly less work for the
//! same output.
//!
//! Two signals drive it. The sink's drop counter is monotonic and local, so what matters is
//! its delta over a window, and a single drop halves the rate at once. The viewer's strain
//! report is a latched level, so it only steps the rate down after several consecutive
//! strained windows, and it blocks recovery outright. Recovery is one step per run of clean
//! windows, and the run it takes grows with every strain-driven step down, so a loop that
//! feeds on its own output converges instead of oscillating.

use vstd::prelude::*;

verus! {

/// Ticks per decision window. Counted in ticks rather than wall time: the thing being
/// controlled is the tick.
pub const WINDOW_TICKS: u32 = 60;

/// Never shed more than three ticks in four.
pub const MAX_DIVISOR: u32 = 4;

/// Consecutive clean windows before easing back one step (the starting patience).
pub const RECOVER_WINDOWS: u32 = 3;

/// Consecutive strained windows before stepping down one.
pub const STRAIN_WINDOWS: u32 = 3;

/// How much more patient recovery gets after each strain-driven step down.
pub const PATIENCE_FACTOR: u32 = 4;

/// The ceiling on patience, in clean windows.
pub const PATIENCE_MAX: u32 = 320;

/// What moved the divisor, carried into the log line so a shed stays attributable.
#[derive(Debug, Clone, Copy, PartialEq, Eq, Structural)]
pub enum Reason {
    /// The pump could not take the frames: the link.
    Drops,
    /// The viewer says its decoder is saturated: the phone.
    Strain,
    /// Easing back toward full rate.
    Recover,
}

impl Reason {
    /// The human-readable attribution for the log line.
    pub fn as_str(self) -> (s: &'static str)
        ensures
            self == Reason::Drops ==> s@ == "the pump could not take the frames we were making"@,
            self == Reason::Strain ==> s@ == "the viewer says its decoder is saturated"@,
            self == Reason::Recover ==> s@ == "clean windows — easing back toward full rate"@,
    {
        match self {
            Reason::Drops => "the pump could not take the frames we were making",
            Reason::Strain => "the viewer says its decoder is saturated",
            Reason::Recover => "clean windows — easing back toward full rate",
        }
    }
}

/// How often the render loop renders: 1 = every tick, 2 = every other, 4 = every fourth.
#[derive(Debug, Clone, Copy, PartialEq, Eq, Structural)]
pub struct Divisor(pub u32);

impl Divisor {
    /// Every tick renders.
    pub fn one() -> (d: Divisor)
        ensures
            d.0 == 1,
    {
        Divisor(1)
    }
}

/// The outcome of one decision window.
#[derive(Debug, Clone, Copy)]
pub struct Decision {
    pub divisor: u32,
    pub clean: u32,
    pub strain: u32,
    pub patience: u32,
    pub reason: Reason,
}

/// `x + 1`, held at `u32::MAX` rather than wrapping.
pub open spec fn succ_sat(x: u32) -> u32 {
    if x < u32::MAX { (x + 1) as u32 } else { x }
}

/// The decision for one window, as a function of what the window saw and the state before it.
///
/// In order: any drop doubles the divisor (to the ceiling) and forgets recovery credit, while
/// still counting strain; otherwise strain is counted and steps the divisor down only on its
/// third consecutive window, multiplying patience; otherwise a clean window either releases one
/// step, once the clean run reaches the patience, or adds one to the run.
pub open spec fn spec_decide(
    dropped_in_window: u64,
    strained: bool,
    divisor: u32,
    clean: u32,
    strain: u32,
    patience: u32,
) -> Decision {
    if dropped_in_window > 0 {
        Decision {
            divisor: if 2 * divisor <= MAX_DIVISOR { (2 * divisor) as u32 } else { MAX_DIVISOR },
            clean: 0,
            strain: if strained { succ_sat(strain) } else { 0 },
            patience,
            reason: Reason::Drops,
        }
    } else if strained {
        if divisor < MAX_DIVISOR && succ_sat(strain) >= STRAIN_WINDOWS {
            Decision {
                divisor: (2 * divisor) as u32,
                clean: 0,
                strain: 0,
                patience: if PATIENCE_FACTOR * patience <= PATIENCE_MAX {
                    (PATIENCE_FACTOR * patience) as u32
                } else {
                    PATIENCE_MAX
                },
                reason: Reason::Strain,
            }
        } else {
            Decision { divisor, clean: 0, strain: succ_sat(strain), patience, reason: Reason::Strain }
        }
    } else if divisor > 1 && clean + 1 >= patience {
        Decision { divisor: divisor / 2, clean: 0, strain: 0, patience, reason: Reason::Recover }
    } else {
        Decision { divisor, clean: succ_sat(clean), strain: 0, patience, reason: Reason::Recover }
    }
}

/// The decision itself, kept pure so it is testable without a session, a link or a GPU.
///
/// Returns exactly [`spec_decide`]; counters that would pass `u32::MAX` are held there.
pub fn decide(
    dropped_in_window: u64,
    strained: bool,
    divisor: u32,
    clean: u32,
    strain: u32,
    patience: u32,
) -> (d: Decision)
    ensures
        d == spec_decide(dropped_in_window, strained, divisor, clean, strain, patience),
{
    let next_strain: u32 = if strain < u32::MAX { strain + 1 } else { strain };
    if dropped_in_window > 0 {
        // Back off immediately and forget any accumulated recovery: one dropped frame means
        // the pump is at its limit right now. Checked first because it is the faster signal
        // and the one measured locally.
        let doubled: u32 = if divisor <= MAX_DIVISOR / 2 { divisor * 2 } else { MAX_DIVISOR };
        return Decision {
            divisor: doubled,
            clean: 0,
            strain: if strained { next_strain } else { 0 },
            patience,
            reason: Reason::Drops,
        };
    }
    if strained {
        // A level, so it is counted, not acted on, until it has held for several windows.
        if divisor < MAX_DIVISOR && next_strain >= STRAIN_WINDOWS {
            // The probe that follows must be rarer than the last one.
            let grown: u32 = if patience <= PATIENCE_MAX / PATIENCE_FACTOR {
                patience * PATIENCE_FACTOR
            } else {
                PATIENCE_MAX
            };
            return Decision {
                divisor: divisor * 2,
                clean: 0,
                strain: 0,
                patience: grown,
                reason: Reason::Strain,
            };
        }
        // Held, and recovery credit is not accrued: a strained viewer must never climb back.
        return Decision { divisor, clean: 0, strain: next_strain, patience, reason: Reason::Strain };
    }
    if divisor > 1 && (clean as u64) + 1 >= patience as u64 {
        // One step back toward full rate, and the counter restarts.
        return Decision {
            divisor: divisor / 2,
            clean: 0,
            strain: 0,
            patience,
            reason: Reason::Recover,
        };
    }
    let next_clean: u32 = if clean < u32::MAX { clean + 1 } else { clean };
    Decision { divisor, clean: next_clean, strain: 0, patience, reason: Reason::Recover }
}

/// The divisors the controller can be at: every tick, every other, or every fourth.
pub open spec fn valid_divisor(d: u32) -> bool {
    d == 1 || d == 2 || d == 4
}

/// The controller's state between windows.
#[derive(Debug, Clone, Copy)]
pub struct Congestion {
    divisor: u32,
    /// Ticks since the last decision.
    tick: u32,
    /// The sink's drop count at the last decision, so a delta can be taken.
    last_dropped: u64,
    /// Consecutive windows with no drops.
    clean: u32,
    /// Consecutive windows in which the viewer reported strain.
    strain: u32,
    /// Clean windows currently required to climb one step.
    patience: u32,
}

impl Congestion {
    /// The divisor in force.
    pub closed spec fn spec_divisor(self) -> u32 {
        self.divisor
    }

    /// Ticks since the last decision.
    pub closed spec fn spec_tick(self) -> u32 {
        self.tick
    }

    /// The sink's drop counter as of the last decision.
    pub closed spec fn spec_last_dropped(self) -> u64 {
        self.last_dropped
    }

    /// Consecutive clean windows.
    pub closed spec fn spec_clean(self) -> u32 {
        self.clean
    }

    /// Consecutive strained windows.
    pub closed spec fn spec_strain(self) -> u32 {
        self.strain
    }

    /// Clean windows required to climb one step.
    pub closed spec fn spec_patience(self) -> u32 {
        self.patience
    }

    /// What every reachable controller state satisfies: a divisor of 1, 2 or 4, a tick inside
    /// the current window, and a patience between its floor and its ceiling.
    #[verifier::type_invariant]
    pub closed spec fn inv(self) -> bool {
        &&& valid_divisor(self.divisor)
        &&& self.tick < WINDOW_TICKS
        &&& RECOVER_WINDOWS <= self.patience <= PATIENCE_MAX
    }

    /// The invariant, stated over the public accessors.
    pub open spec fn well_formed(self) -> bool {
        &&& valid_divisor(self.spec_divisor())
        &&& self.spec_tick() < WINDOW_TICKS
        &&& RECOVER_WINDOWS <= self.spec_patience() <= PATIENCE_MAX
    }

    /// Whether `self` is the state of a fresh session: full rate, at the start of a window,
    /// with no history.
    pub open spec fn is_fresh(self) -> bool {
        &&& self.spec_divisor() == 1
        &&& self.spec_tick() == 0
        &&& self.spec_last_dropped() == 0
        &&& self.spec_clean() == 0
        &&& self.spec_strain() == 0
        &&& self.spec_patience() == RECOVER_WINDOWS
    }

    /// One render tick, as a function: the state after it and whether it renders.
    ///
    /// A tick renders when it falls on a multiple of the divisor. The window closes on its
    /// last tick: the drop delta since the last close is taken (saturating, so a counter that
    /// went backwards reads as no drops), the counter is remembered, the tick restarts and the
    /// state takes the new decision.
    pub open spec fn spec_step(self, dropped_total: u64, strained: bool) -> (Congestion, bool) {
        let render = self.spec_tick() % self.spec_divisor() == 0;
        let next_tick = self.spec_tick() + 1;
        if next_tick >= WINDOW_TICKS {
            let delta: u64 = if dropped_total >= self.spec_last_dropped() {
                (dropped_total - self.spec_last_dropped()) as u64
            } else {
                0
            };
            let d = spec_decide(
                delta,
                strained,
                self.spec_divisor(),
                self.spec_clean(),
                self.spec_strain(),
                self.spec_patience(),
            );
            (Congestion::from_parts(d.divisor, 0, dropped_total, d.clean, d.strain, d.patience), render)
        } else {
            (
                Congestion::from_parts(
                    self.spec_divisor(),
                    next_tick as u32,
                    self.spec_last_dropped(),
                    self.spec_clean(),
                    self.spec_strain(),
                    self.spec_patience(),
                ),
                render,
            )
        }
    }

    /// The state with the given parts.
    pub closed spec fn from_parts(
        divisor: u32,
        tick: u32,
        last_dropped: u64,
        clean: u32,
        strain: u32,
        patience: u32,
    ) -> Congestion {
        Congestion { divisor, tick, last_dropped, clean, strain, patience }
    }

    /// The accessors read back the parts a state was built from.
    pub broadcast proof fn lemma_from_parts(
        divisor: u32,
        tick: u32,
        last_dropped: u64,
        clean: u32,
        strain: u32,
        patience: u32,
    )
        ensures
            #![trigger Congestion::from_parts(divisor, tick, last_dropped, clean, strain, patience)]
            Congestion::from_parts(divisor, tick, last_dropped, clean, strain, patience).spec_divisor() == divisor,
            Congestion::from_parts(divisor, tick, last_dropped, clean, strain, patience).spec_tick() == tick,
            Congestion::from_parts(divisor, tick, last_dropped, clean, strain, patience).spec_last_dropped() == last_dropped,
            Congestion::from_parts(divisor, tick, last_dropped, clean, strain, patience).spec_clean() == clean,
            Congestion::from_parts(divisor, tick, last_dropped, clean, strain, patience).spec_strain() == strain,
            Congestion::from_parts(divisor, tick, last_dropped, clean, strain, patience).spec_patience() == patience,
    {
    }

    /// The state of a fresh session: full rate, no history.
    pub fn new() -> (c: Self)
        ensures
            c.is_fresh(),
            c.well_formed(),
    {
        Congestion { divisor: 1, tick: 0, last_dropped: 0, clean: 0, strain: 0, patience: RECOVER_WINDOWS }
    }

    /// Reset for a new session. The drop counter belongs to the old sink and means nothing here.
    pub fn reset(&mut self)
        ensures
            final(self).is_fresh(),
            final(self).well_formed(),
    {
        *self = Congestion::new();
    }

    /// The same viewer's media path came back: keep the rate it earned, forget the rest —
    /// the tick, the counter, the runs, and the patience that grew against it.
    pub fn reattach(&mut self)
        ensures
            final(self).spec_divisor() == old(self).spec_divisor(),
            final(self).spec_tick() == 0,
            final(self).spec_last_dropped() == 0,
            final(self).spec_clean() == 0,
            final(self).spec_strain() == 0,
            final(self).spec_patience() == RECOVER_WINDOWS,
            final(self).well_formed(),
    {
        proof {
            use_type_invariant(&*self);
        }
        let divisor = self.divisor;
        *self = Congestion {
            divisor,
            tick: 0,
            last_dropped: 0,
            clean: 0,
            strain: 0,
            patience: RECOVER_WINDOWS,
        };
    }

    /// The divisor in force: 1, 2 or 4.
    pub fn divisor(&self) -> (d: u32)
        ensures
            d == self.spec_divisor(),
            valid_divisor(d),
    {
        proof {
            use_type_invariant(self);
        }
        self.divisor
    }

    /// Should this tick render? Advances the window and re-decides when it closes.
    ///
    /// `dropped_total` is the sink's monotonic counter; `strained` is the viewer's latest word
    /// on its own decoder — a latched level, not an event.
    pub fn should_render(&mut self, dropped_total: u64, strained: bool) -> (render: bool)
        ensures
            (*final(self), render) == old(self).spec_step(dropped_total, strained),
            old(self).well_formed(),
            final(self).well_formed(),
    {
        proof {
            use_type_invariant(&*self);
        }
        let render = self.tick % self.divisor == 0;
        let next_tick = self.tick + 1;
        if next_tick >= WINDOW_TICKS {
            let delta: u64 = if dropped_total >= self.last_dropped {
                dropped_total - self.last_dropped
            } else {
                0
            };
            let next = decide(delta, strained, self.divisor, self.clean, self.strain, self.patience);
            *self = Congestion {
                divisor: next.divisor,
                tick: 0,
                last_dropped: dropped_total,
                clean: next.clean,
                strain: next.strain,
                patience: next.patience,
            };
        } else {
            *self = Congestion {
                divisor: self.divisor,
                tick: next_tick,
                last_dropped: self.last_dropped,
                clean: self.clean,
                strain: self.strain,
                patience: self.patience,
            };
        }
        render
    }
}


/// `n` render ticks with the same inputs each tick.
pub open spec fn run(c: Congestion, n: nat, dropped_total: u64, strained: bool) -> Congestion
    decreases n,
{
    if n == 0 {
        c
    } else {
        run(c.spec_step(dropped_total, strained).0, (n - 1) as nat, dropped_total, strained)
    }
}

/// How many of `n` render ticks with the same inputs each tick render.
pub open spec fn rendered(c: Congestion, n: nat, dropped_total: u64, strained: bool) -> nat
    decreases n,
{
    if n == 0 {
        0
    } else {
        let (next, render) = c.spec_step(dropped_total, strained);
        (if render { 1nat } else { 0nat }) + rendered(next, (n - 1) as nat, dropped_total, strained)
    }
}

/// A decision never leaves the divisors 1, 2 and 4, and never takes patience outside its
/// floor and ceiling: the rate is never shed past three ticks in four.
pub proof fn law_decide_stays_in_range(
    dropped_in_window: u64,
    strained: bool,
    divisor: u32,
    clean: u32,
    strain: u32,
    patience: u32,
)
    requires
        valid_divisor(divisor),
        RECOVER_WINDOWS <= patience <= PATIENCE_MAX,
    ensures
        valid_divisor(spec_decide(dropped_in_window, strained, divisor, clean, strain, patience).divisor),
        RECOVER_WINDOWS <= spec_decide(dropped_in_window, strained, divisor, clean, strain, patience).patience <= PATIENCE_MAX,
{
}

/// Any dropped frame in a window doubles the divisor (up to the ceiling) on that window, forgets
/// the recovery credit, is attributed to the link, and leaves patience alone: the drop signal
/// is measured locally and needs no growing wait. Strain is still counted underneath it.
pub proof fn law_a_drop_backs_off_at_once(
    dropped_in_window: u64,
    strained: bool,
    divisor: u32,
    clean: u32,
    strain: u32,
    patience: u32,
)
    requires
        dropped_in_window > 0,
        valid_divisor(divisor),
    ensures
        ({
            let d = spec_decide(dropped_in_window, strained, divisor, clean, strain, patience);
            &&& d.divisor == if divisor < MAX_DIVISOR { 2 * divisor } else { MAX_DIVISOR as int }
            &&& d.clean == 0
            &&& d.patience == patience
            &&& d.reason == Reason::Drops
            &&& (strained ==> d.strain == succ_sat(strain))
        }),
{
}

/// Strain is a level: while it has held for fewer than [`STRAIN_WINDOWS`] windows the divisor
/// does not move, and a strained window never lowers the divisor (never recovers) nor accrues
/// recovery credit.
pub proof fn law_strain_is_patient_and_blocks_recovery(
    dropped_in_window: u64,
    divisor: u32,
    clean: u32,
    strain: u32,
    patience: u32,
)
    requires
        valid_divisor(divisor),
    ensures
        ({
            let d = spec_decide(dropped_in_window, true, divisor, clean, strain, patience);
            &&& d.divisor >= divisor
            &&& d.clean == 0
            &&& (dropped_in_window == 0 && strain + 1 < STRAIN_WINDOWS ==> d.divisor == divisor)
        }),
{
}

/// The strained window that completes a run of [`STRAIN_WINDOWS`] halves the rate (below the
/// ceiling) and multiplies the patience recovery will need by [`PATIENCE_FACTOR`], capped at
/// [`PATIENCE_MAX`], so each probe back toward full rate comes rarer than the last.
pub proof fn law_sustained_strain_steps_down_and_grows_patience(
    divisor: u32,
    clean: u32,
    strain: u32,
    patience: u32,
)
    requires
        valid_divisor(divisor),
        divisor < MAX_DIVISOR,
        strain + 1 >= STRAIN_WINDOWS,
    ensures
        ({
            let d = spec_decide(0, true, divisor, clean, strain, patience);
            &&& d.divisor == 2 * divisor
            &&& d.strain == 0
            &&& d.patience == if PATIENCE_FACTOR * patience <= PATIENCE_MAX {
                PATIENCE_FACTOR * patience
            } else {
                PATIENCE_MAX as int
            }
            &&& d.reason == Reason::Strain
        }),
{
}

/// The rate only ever climbs back one step at a time, and only on a window with no drops and
/// no strain that completes a clean run as long as the patience.
pub proof fn law_recovery_is_one_step_after_patience(
    dropped_in_window: u64,
    strained: bool,
    divisor: u32,
    clean: u32,
    strain: u32,
    patience: u32,
)
    requires
        valid_divisor(divisor),
        spec_decide(dropped_in_window, strained, divisor, clean, strain, patience).divisor < divisor,
    ensures
        dropped_in_window == 0,
        !strained,
        clean + 1 >= patience,
        spec_decide(dropped_in_window, strained, divisor, clean, strain, patience).divisor == divisor / 2,
        spec_decide(dropped_in_window, strained, divisor, clean, strain, patience).clean == 0,
        spec_decide(dropped_in_window, strained, divisor, clean, strain, patience).patience == patience,
{
}

/// Patience is earned and kept: only the strained window that completes a run of
/// [`STRAIN_WINDOWS`] and steps the rate down changes it, and then it grows (up to
/// [`PATIENCE_MAX`]). Drops, recovery steps and clean windows all leave it where it is, so a
/// loop that keeps tripping strain waits longer before each probe back up.
pub proof fn law_only_a_strain_step_changes_patience(
    dropped_in_window: u64,
    strained: bool,
    divisor: u32,
    clean: u32,
    strain: u32,
    patience: u32,
)
    requires
        valid_divisor(divisor),
        RECOVER_WINDOWS <= patience <= PATIENCE_MAX,
    ensures
        ({
            let d = spec_decide(dropped_in_window, strained, divisor, clean, strain, patience);
            &&& d.patience != patience ==> {
                &&& dropped_in_window == 0
                &&& strained
                &&& d.reason == Reason::Strain
                &&& d.divisor == 2 * divisor
            }
            &&& d.patience >= patience
            &&& d.divisor != 2 * divisor || dropped_in_window > 0 || !strained ==> d.patience == patience
            &&& d.divisor < divisor ==> d.patience == patience
        }),
{
}

/// One tick keeps a well-formed state well-formed.
pub proof fn law_step_keeps_well_formed(c: Congestion, dropped_total: u64, strained: bool)
    requires
        c.well_formed(),
    ensures
        c.spec_step(dropped_total, strained).0.well_formed(),
{
    broadcast use Congestion::lemma_from_parts;
    law_decide_stays_in_range(
        if dropped_total >= c.spec_last_dropped() { (dropped_total - c.spec_last_dropped()) as u64 } else { 0 },
        strained,
        c.spec_divisor(),
        c.spec_clean(),
        c.spec_strain(),
        c.spec_patience(),
    );
}

/// The drop counter is read as a delta: at the close of a window, a counter that has not moved
/// since the last close (or has gone backwards) is a clean window, however large it is.
pub proof fn law_a_static_counter_is_no_drops(c: Congestion, dropped_total: u64, strained: bool)
    requires
        c.well_formed(),
        c.spec_tick() + 1 == WINDOW_TICKS,
        dropped_total <= c.spec_last_dropped(),
    ensures
        ({
            let next = c.spec_step(dropped_total, strained).0;
            let d = spec_decide(0, strained, c.spec_divisor(), c.spec_clean(), c.spec_strain(), c.spec_patience());
            &&& next.spec_divisor() == d.divisor
            &&& next.spec_clean() == d.clean
            &&& next.spec_strain() == d.strain
            &&& next.spec_patience() == d.patience
            &&& next.spec_tick() == 0
            &&& next.spec_last_dropped() == dropped_total
        }),
{
    broadcast use Congestion::lemma_from_parts;
}

/// A clean link never sheds: from any state at full rate, with the drop counter where the last
/// window left it and no strain, every tick renders and the rate stays full however long it
/// runs.
pub proof fn law_a_clean_link_never_sheds(c: Congestion, n: nat)
    requires
        c.well_formed(),
        c.spec_divisor() == 1,
    ensures
        run(c, n, c.spec_last_dropped(), false).spec_divisor() == 1,
        run(c, n, c.spec_last_dropped(), false).spec_last_dropped() == c.spec_last_dropped(),
        run(c, n, c.spec_last_dropped(), false).well_formed(),
        rendered(c, n, c.spec_last_dropped(), false) == n,
    decreases n,
{
    broadcast use Congestion::lemma_from_parts;
    if n > 0 {
        let next = c.spec_step(c.spec_last_dropped(), false).0;
        law_step_keeps_well_formed(c, c.spec_last_dropped(), false);
        assert(next.spec_divisor() == 1);
        assert(next.spec_last_dropped() == c.spec_last_dropped());
        law_a_clean_link_never_sheds(next, (n - 1) as nat);
    }
}

/// How many of the `n` ticks numbered from `from` fall on a multiple of `d`.
pub open spec fn multiples_in(from: int, n: nat, d: int) -> nat
    decreases n,
{
    if n == 0 {
        0
    } else {
        (if from % d == 0 { 1nat } else { 0nat }) + multiples_in(from + 1, (n - 1) as nat, d)
    }
}

/// Within a window the divisor holds still, so the ticks that render are exactly those whose
/// number in the window is a multiple of it.
proof fn lemma_rendered_within_window(c: Congestion, n: nat, dropped_total: u64, strained: bool)
    requires
        c.well_formed(),
        c.spec_tick() + n <= WINDOW_TICKS,
    ensures
        rendered(c, n, dropped_total, strained) == multiples_in(c.spec_tick() as int, n, c.spec_divisor() as int),
    decreases n,
{
    broadcast use Congestion::lemma_from_parts;
    if n > 0 {
        let next = c.spec_step(dropped_total, strained).0;
        let render = c.spec_step(dropped_total, strained).1;
        assert(render == (c.spec_tick() % c.spec_divisor() == 0));
        assert(rendered(c, n, dropped_total, strained) == (if render { 1nat } else { 0nat }) + rendered(
            next,
            (n - 1) as nat,
            dropped_total,
            strained,
        ));
        assert(multiples_in(c.spec_tick() as int, n, c.spec_divisor() as int) == (if render { 1nat } else { 0nat })
            + multiples_in(c.spec_tick() + 1, (n - 1) as nat, c.spec_divisor() as int));
        if c.spec_tick() + 1 < WINDOW_TICKS {
            assert(next.spec_tick() == c.spec_tick() + 1);
            assert(next.spec_divisor() == c.spec_divisor());
            law_step_keeps_well_formed(c, dropped_total, strained);
            lemma_rendered_within_window(next, (n - 1) as nat, dropped_total, strained);
        } else {
            assert(n == 1);
        }
    }
}

/// Shedding is exact: over a whole window from its first tick, a controller at divisor `d`
/// renders exactly one tick in `d` — every tick at 1, half of them at 2, a quarter at 4.
pub proof fn law_a_window_renders_one_tick_in_divisor(c: Congestion, dropped_total: u64, strained: bool)
    requires
        c.well_formed(),
        c.spec_tick() == 0,
    ensures
        rendered(c, WINDOW_TICKS as nat, dropped_total, strained) == WINDOW_TICKS / c.spec_divisor(),
{
    lemma_rendered_within_window(c, WINDOW_TICKS as nat, dropped_total, strained);
    lemma_multiples_from_zero(WINDOW_TICKS as nat, c.spec_divisor() as int);
}

/// Counting one more tick adds the last one's share.
proof fn lemma_multiples_append(from: int, n: nat, d: int)
    ensures
        multiples_in(from, n + 1, d) == multiples_in(from, n, d) + (if (from + n) % d == 0 { 1nat } else { 0nat }),
    decreases n,
{
    reveal_with_fuel(multiples_in, 2);
    if n > 0 {
        lemma_multiples_append(from + 1, (n - 1) as nat, d);
        assert(multiples_in(from, n + 1, d) == (if from % d == 0 { 1nat } else { 0nat }) + multiples_in(
            from + 1,
            n,
            d,
        ));
    }
}

/// Among the first `n` ticks of a window, `ceil(n / d)` fall on a multiple of `d`.
proof fn lemma_multiples_from_zero(n: nat, d: int)
    requires
        d == 1 || d == 2 || d == 4,
    ensures
        multiples_in(0, n, d) == (n + d - 1) / d,
    decreases n,
{
    if n > 0 {
        lemma_multiples_from_zero((n - 1) as nat, d);
        lemma_multiples_append(0, (n - 1) as nat, d);
        if d == 1 {
        } else if d == 2 {
        } else {
        }
    }
}

impl Default for Congestion {
    fn default() -> (c: Self)
        ensures
            c.is_fresh(),
    {
        Congestion::new()
    }
}

} // verus!
