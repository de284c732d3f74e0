//! Where encoded frames go: a sink that consumes one H.264 Annex-B access unit per frame, and
//! the channel sink that hands them to the network pump without ever blocking the render loop.
//!
//! Each frame carries the real time elapsed since the previous frame handed over, so the pump
//! can set RTP timestamps that track wall clock across any gap — a dropped frame, a long tick,
//! a pipeline rebuild. A frame the pump refuses is counted, and its share of wall clock rolls
//! into the next accepted frame's duration.

use vstd::prelude::*;
use crate::clock::elapsed_between;

verus! {

/// Consumes encoded H.264 Annex-B data, one access unit per frame.
pub trait FrameSink: Send {
    fn send(&mut self, nal_data: &[u8]);

    /// Frames this sink could not accept, cumulative for the session: the render loop's
    /// congestion signal. Monotonic, so callers take a delta. Zero for a sink that cannot drop.
    fn dropped(&self) -> (n: u64)
        default_ensures
            n == 0,
    {
        0
    }
}

/// One encoded access unit on its way to the pump.
#[derive(Debug)]
pub struct FrameMsg {
    /// The encoded access unit (Annex-B).
    pub data: Vec<u8>,
    /// Real time elapsed since the previous frame handed over, for RTP pacing.
    pub duration: std::time::Duration,
    /// When the frame was handed over, so the pump can measure how long it waited.
    pub queued_at: std::time::Instant,
}

#[verifier::external_type_specification]
#[verifier::external_body]
#[verifier::reject_recursive_types(T)]
pub struct ExSender<T>(tokio::sync::mpsc::Sender<T>);

/// `Sender::try_send`: offer `msg` to the bounded channel without waiting. `true` when it was
/// queued; `false` when the channel was full or closed and the message was discarded. Which of
/// the two happens depends on the receiver, so nothing is promised of it.
#[verifier::external_body]
fn try_send(tx: &tokio::sync::mpsc::Sender<FrameMsg>, msg: FrameMsg) -> (queued: bool) {
    tx.try_send(msg).is_ok()
}

/// A sink that forwards frames to the pump over a bounded, drop-on-full channel.
pub struct ChannelSink {
    tx: tokio::sync::mpsc::Sender<FrameMsg>,
    /// Nominal 1/fps, used only for the very first frame.
    frame_dur: std::time::Duration,
    /// When a frame was last handed over.
    last_sent: Option<std::time::Instant>,
    /// What has been handed over so far.
    tally: Tally,
}

/// A channel sink's record of what it has handed over.
struct Tally {
    /// Frames the pump could not accept, held at `u64::MAX`.
    dropped: u64,
    /// Frames the pump accepted.
    accepted: Ghost<nat>,
    /// Frames the pump refused.
    refused: Ghost<nat>,
    /// Every message handed to the pump, in order.
    handed: Ghost<Seq<FrameMsg>>,
}

/// The message for one frame handed over at `now`: the frame's bytes, stamped with `now`, and
/// covering the nominal frame interval when nothing was handed over before, and the real time
/// since the last accepted frame after that.
pub fn frame_msg(
    nal_data: &[u8],
    now: std::time::Instant,
    last_sent: Option<std::time::Instant>,
    frame_dur: std::time::Duration,
) -> (m: FrameMsg)
    ensures
        m.data@ == nal_data@,
        m.queued_at == now,
        last_sent is None ==> m.duration == frame_dur,
        last_sent matches Some(prev) ==> m.duration == elapsed_between(now, prev),
{
    let duration = match last_sent {
        Some(prev) => now.saturating_duration_since(prev),
        None => frame_dur,
    };
    FrameMsg { data: vstd::slice::slice_to_vec(nal_data), duration, queued_at: now }
}

impl ChannelSink {
    /// Frames the pump refused so far.
    pub closed spec fn spec_dropped(&self) -> u64 {
        self.tally.dropped
    }

    /// Frames the pump accepted so far.
    pub closed spec fn spec_accepted(&self) -> nat {
        self.tally.accepted@
    }

    /// Frames the pump refused so far (not held at any maximum).
    pub closed spec fn spec_refused(&self) -> nat {
        self.tally.refused@
    }

    /// Every message handed to the pump so far, in order.
    pub closed spec fn spec_handed(&self) -> Seq<FrameMsg> {
        self.tally.handed@
    }

    /// The counts agree with what was handed over: every message was either accepted or
    /// refused, and the drop counter is the number refused (held at `u64::MAX`).
    pub open spec fn totals_agree(&self) -> bool {
        &&& self.spec_accepted() + self.spec_refused() == self.spec_handed().len()
        &&& self.spec_dropped() == if self.spec_refused() <= u64::MAX {
            self.spec_refused() as int
        } else {
            u64::MAX as int
        }
    }

    #[verifier::type_invariant]
    closed spec fn inv(self) -> bool {
        &&& self.tally.accepted@ + self.tally.refused@ == self.tally.handed@.len()
        &&& self.tally.dropped == if self.tally.refused@ <= u64::MAX { self.tally.refused@ as int } else { u64::MAX as int }
    }

    /// The message handed over by the last send, and the state before it: what the pump was
    /// offered for `nal_data`.
    pub open spec fn handed_frame(&self, before: &Self, nal_data: Seq<u8>) -> bool {
        &&& self.spec_handed().len() == before.spec_handed().len() + 1
        &&& self.spec_handed().drop_last() == before.spec_handed()
        &&& self.spec_handed().last().data@ == nal_data
        &&& (before.spec_last_sent() is None ==> self.spec_handed().last().duration == before.spec_frame_dur())
        &&& (before.spec_last_sent() matches Some(prev) ==> self.spec_handed().last().duration
            == elapsed_between(self.spec_handed().last().queued_at, prev))
    }

    /// When a frame was last accepted.
    pub closed spec fn spec_last_sent(&self) -> Option<std::time::Instant> {
        self.last_sent
    }

    /// The nominal frame interval.
    pub closed spec fn spec_frame_dur(&self) -> std::time::Duration {
        self.frame_dur
    }

    /// A sink over `tx` whose first frame is stamped with `frame_dur`.
    pub fn new(tx: tokio::sync::mpsc::Sender<FrameMsg>, frame_dur: std::time::Duration) -> (s: Self)
        ensures
            s.spec_dropped() == 0,
            s.spec_accepted() == 0,
            s.spec_refused() == 0,
            s.spec_handed().len() == 0,
            s.totals_agree(),
            s.spec_last_sent() is None,
            s.spec_frame_dur() == frame_dur,
    {
        ChannelSink {
            tx,
            frame_dur,
            last_sent: None,
            tally: Tally { dropped: 0, accepted: Ghost(0), refused: Ghost(0), handed: Ghost(Seq::empty()) },
        }
    }

    /// Hand one frame to the pump. Its duration is the nominal interval for the first frame
    /// and the real time since the last accepted frame afterwards. An accepted frame is counted
    /// and becomes the new reference point; a refused one is counted (saturating) and leaves the reference
    /// where it was, so its time rolls into the next accepted frame.
    pub fn offer(&mut self, nal_data: &[u8]) -> (accepted: bool)
        ensures
            final(self).spec_frame_dur() == old(self).spec_frame_dur(),
            final(self).handed_frame(old(self), nal_data@),
            final(self).totals_agree(),
            accepted ==> final(self).spec_refused() == old(self).spec_refused() && final(self).spec_last_sent() == Some(
                final(self).spec_handed().last().queued_at,
            ),
            !accepted ==> final(self).spec_refused() == old(self).spec_refused() + 1,
            accepted ==> final(self).spec_accepted() == old(self).spec_accepted() + 1 && final(self).spec_dropped() == old(
                self,
            ).spec_dropped() && final(self).spec_last_sent() is Some,
            !accepted ==> final(self).spec_accepted() == old(self).spec_accepted() && final(self).spec_last_sent() == old(
                self,
            ).spec_last_sent() && final(self).spec_dropped() == if old(self).spec_dropped() < u64::MAX {
                old(self).spec_dropped() + 1
            } else {
                old(self).spec_dropped() as int
            },
    {
        proof {
            use_type_invariant(&*self);
        }
        let now = std::time::Instant::now();
        let msg = frame_msg(nal_data, now, self.last_sent, self.frame_dur);
        let ghost handed = self.tally.handed@.push(msg);
        proof {
            assert(handed.drop_last() =~= self.tally.handed@);
            assert(handed.last() == msg);
        }
        let dropped = self.tally.dropped;
        let ghost accepted = self.tally.accepted@;
        let ghost refused = self.tally.refused@;
        if try_send(&self.tx, msg) {
            self.last_sent = Some(now);
            self.tally = Tally {
                dropped,
                accepted: Ghost(accepted + 1),
                refused: Ghost(refused),
                handed: Ghost(handed),
            };
            true
        } else {
            let next: u64 = if dropped < u64::MAX { dropped + 1 } else { dropped };
            self.tally = Tally {
                dropped: next,
                accepted: Ghost(accepted),
                refused: Ghost(refused + 1),
                handed: Ghost(handed),
            };
            false
        }
    }
}

impl FrameSink for ChannelSink {
    /// Hand one frame to the pump: it is either accepted, counted as accepted and made the
    /// reference point, or refused and counted as dropped (saturating).
    fn send(&mut self, nal_data: &[u8])
        ensures
            final(self).spec_frame_dur() == old(self).spec_frame_dur(),
            final(self).handed_frame(old(self), nal_data@),
            final(self).totals_agree(),
            ({
                &&& final(self).spec_accepted() == old(self).spec_accepted() + 1
                &&& final(self).spec_refused() == old(self).spec_refused()
                &&& final(self).spec_dropped() == old(self).spec_dropped()
                &&& final(self).spec_last_sent() == Some(final(self).spec_handed().last().queued_at)
            }) || ({
                &&& final(self).spec_accepted() == old(self).spec_accepted()
                &&& final(self).spec_refused() == old(self).spec_refused() + 1
                &&& final(self).spec_last_sent() == old(self).spec_last_sent()
                &&& final(self).spec_dropped() == if old(self).spec_dropped() < u64::MAX {
                    old(self).spec_dropped() + 1
                } else {
                    old(self).spec_dropped() as int
                }
            }),
    {
        self.offer(nal_data);
    }

    fn dropped(&self) -> (n: u64)
        ensures
            n == self.spec_dropped(),
            self.totals_agree(),
    {
        proof {
            use_type_invariant(self);
        }
        self.tally.dropped
    }
}

} // verus!
