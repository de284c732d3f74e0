//! Encoder-stall detection for the render loop: count consecutive empty encode ticks and
//! signal when the encoder has gone silent.
//!
//! A VAAPI encoder under a very long GOP can enter a state where every submit returns no
//! packet and no error, leaving the viewer's stream frozen. [`StallWatchdog`] counts those
//! empty ticks; the caller resets it on a packet and downgrades the pipeline when
//! [`StallWatchdog::tick`] returns `true`.

use vstd::prelude::*;

verus! {

/// Tracks consecutive empty ticks from the encoder.
pub struct StallWatchdog {
    consecutive_empty: u32,
    threshold: u32,
}

/// One thing that can happen to a watchdog: a tick that brought a packet, an empty tick, or
/// a reset.
pub enum WatchdogEvent {
    Packet,
    Empty,
    Reset,
}

/// The stall threshold for a frame rate: half a second of ticks, never fewer than ten.
pub open spec fn spec_threshold(fps: u32) -> int {
    if fps / 2 >= 10 { (fps / 2) as int } else { 10 }
}

/// The count after one event: a packet or a reset clears it, an empty tick adds one (held at
/// the top of the counter's range).
pub open spec fn step_count(count: nat, e: WatchdogEvent) -> nat {
    match e {
        WatchdogEvent::Empty => if count < u32::MAX { count + 1 } else { count },
        _ => 0,
    }
}

/// The count after a run of events, starting from `count`.
pub open spec fn run_count(count: nat, events: Seq<WatchdogEvent>) -> nat
    decreases events.len(),
{
    if events.len() == 0 {
        count
    } else {
        step_count(run_count(count, events.drop_last()), events.last())
    }
}

/// The number of empty ticks at the end of a run, after its last packet or reset.
pub open spec fn trailing_empties(events: Seq<WatchdogEvent>) -> nat
    decreases events.len(),
{
    if events.len() == 0 {
        0
    } else if events.last() is Empty {
        trailing_empties(events.drop_last()) + 1
    } else {
        0
    }
}

/// A run of `k` empty ticks.
pub open spec fn empties(k: nat) -> Seq<WatchdogEvent> {
    Seq::new(k, |i: int| WatchdogEvent::Empty)
}

/// Whether an empty tick, taken at `count` under `limit`, reports a stall.
pub open spec fn empty_tick_stalls(count: nat, limit: nat) -> bool {
    step_count(count, WatchdogEvent::Empty) >= limit
}

impl StallWatchdog {
    #[verifier::type_invariant]
    spec fn inv(self) -> bool {
        self.threshold >= 10
    }

    /// The consecutive empty ticks counted so far.
    pub closed spec fn count(self) -> nat {
        self.consecutive_empty as nat
    }

    /// The number of empty ticks at which the encoder is declared stalled.
    pub closed spec fn limit(self) -> nat {
        self.threshold as nat
    }

    /// Create a new watchdog calibrated to `fps`. The threshold is `max(fps/2, 10)`.
    pub fn new(fps: u32) -> (w: Self)
        ensures
            w.count() == 0,
            w.limit() == spec_threshold(fps),
            w.limit() >= 10,
    {
        let half = fps / 2;
        let threshold = if half >= 10 { half } else { 10 };
        StallWatchdog { consecutive_empty: 0, threshold }
    }

    /// Record one tick result. A packet resets the count and never reports a stall; an empty
    /// tick adds one and reports a stall once the count reaches the threshold.
    pub fn tick(&mut self, got_packet: bool) -> (stalled: bool)
        ensures
            final(self).limit() == old(self).limit(),
            final(self).limit() >= 10,
            final(self).count() == step_count(
                old(self).count(),
                if got_packet { WatchdogEvent::Packet } else { WatchdogEvent::Empty },
            ),
            got_packet ==> final(self).count() == 0 && !stalled,
            !got_packet ==> final(self).count() == if old(self).count() < u32::MAX {
                old(self).count() + 1
            } else {
                old(self).count()
            },
            !got_packet ==> stalled == (final(self).count() >= final(self).limit()),
            !got_packet ==> stalled == empty_tick_stalls(old(self).count(), old(self).limit()),
    {
        proof {
            use_type_invariant(&*self);
        }
        if got_packet {
            self.consecutive_empty = 0;
            false
        } else {
            if self.consecutive_empty < u32::MAX {
                self.consecutive_empty = self.consecutive_empty + 1;
            }
            self.consecutive_empty >= self.threshold
        }
    }

    /// Reset the counter (after a successful downgrade, so the new encoder starts fresh).
    pub fn reset(&mut self)
        ensures
            final(self).count() == 0,
            final(self).count() == step_count(old(self).count(), WatchdogEvent::Reset),
            final(self).limit() == old(self).limit(),
            final(self).limit() >= 10,
    {
        proof {
            use_type_invariant(&*self);
        }
        self.consecutive_empty = 0;
    }

    /// How many consecutive empty ticks have been counted.
    pub fn consecutive_empty(&self) -> (n: u32)
        ensures
            n == self.count(),
            self.limit() >= 10,
    {
        proof {
            use_type_invariant(self);
        }
        self.consecutive_empty
    }
}

/// Counting from a fresh watchdog, the count after any run of ticks and resets is the number
/// of empty ticks since the last packet or reset (held at the top of the counter's range).
pub proof fn law_count_is_the_trailing_empties(events: Seq<WatchdogEvent>)
    ensures
        run_count(0, events) == if trailing_empties(events) < u32::MAX {
            trailing_empties(events)
        } else {
            u32::MAX as nat
        },
    decreases events.len(),
{
    if events.len() > 0 {
        law_count_is_the_trailing_empties(events.drop_last());
    }
}

/// Once a run holds a packet or a reset, what came before it no longer matters: the count is
/// the number of empty ticks since the last of them, whatever the count was at the start.
pub proof fn law_a_packet_or_reset_forgets_the_past(count: nat, events: Seq<WatchdogEvent>)
    requires
        exists|i: int| 0 <= i < events.len() && !(#[trigger] events[i] is Empty),
    ensures
        run_count(count, events) == run_count(0, events),
    decreases events.len(),
{
    let n = events.len() as int;
    if events.last() is Empty {
        let i = choose|i: int| 0 <= i < events.len() && !(#[trigger] events[i] is Empty);
        assert(i < n - 1);
        assert(events.drop_last()[i] == events[i]);
        law_a_packet_or_reset_forgets_the_past(count, events.drop_last());
    }
}

/// Of the empty ticks that follow a fresh count, the `k`-th is the first to report a stall
/// when `k` reaches the limit: it stalls exactly when `k >= limit`.
pub proof fn law_kth_empty_tick_stalls(limit: nat, k: nat)
    requires
        1 <= k,
        limit <= u32::MAX,
    ensures
        empty_tick_stalls(run_count(0, empties((k - 1) as nat)), limit) == (k >= limit),
{
    law_empties_count(k);
}

/// From a fresh watchdog made for `fps`, the `k`-th consecutive empty tick reports a stall
/// exactly when `k >= max(fps / 2, 10)`.
pub proof fn law_new_watchdog_stalls_at_threshold(fps: u32, k: nat)
    requires
        1 <= k,
    ensures
        empty_tick_stalls(run_count(0, empties((k - 1) as nat)), spec_threshold(fps) as nat) == (
        k >= spec_threshold(fps)),
{
    law_kth_empty_tick_stalls(spec_threshold(fps) as nat, k);
}

/// After a reset, under any limit a watchdog can have (at least ten), the next nine empty
/// ticks report no stall.
pub proof fn law_reset_gives_nine_quiet_ticks(limit: nat, k: nat)
    requires
        limit >= 10,
        1 <= k <= 9,
    ensures
        !empty_tick_stalls(run_count(0, empties((k - 1) as nat)), limit),
{
    law_empties_count(k);
}

/// A run of empty ticks from zero counts each of them, held at the top of the range.
proof fn law_empties_count(k: nat)
    requires
        k >= 1,
    ensures
        step_count(run_count(0, empties((k - 1) as nat)), WatchdogEvent::Empty) == if k
            < u32::MAX {
            k
        } else {
            u32::MAX as nat
        },
    decreases k,
{
    if k >= 2 {
        let prev = empties((k - 1) as nat);
        assert(prev.drop_last() =~= empties((k - 2) as nat));
        assert(prev.last() is Empty);
        law_empties_count((k - 1) as nat);
    }
}

} // verus!
