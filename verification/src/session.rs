//! The session's lifecycle as the render loop and the control plane see it: whether a session
//! runs, the encoder configuration and report it runs with, the composite counter, the
//! pipeline-gap note, and the viewer's state.
//!
//! Building a pipeline is outside work (GPU, encoder); each step here takes its outcome as an
//! argument and decides the rest. A start while a session runs is refused and changes nothing;
//! a reconfigure or a stop without one changes nothing either (the reconfigure is answered
//! with an error). A render tick composites only when the viewer state says so, counts every
//! composite, and answers frame callbacks whether or not it composited, because a client that
//! stops receiving them stops drawing.

use vstd::prelude::*;
use crate::conf::EncoderConfig;
use crate::congestion::valid_divisor;
use crate::error::CompositorError;
use crate::placement::PendingPlacements;
use crate::select::EncoderReport;
use crate::viewer::{ViewerAction, ViewerState};

verus! {

/// The answer to a reconfigure with no session running.
pub const NO_SESSION_TO_RECONFIGURE: &'static str = "no active session to reconfigure";

/// `report` with the bitrate and frame rate the encoder was actually built with.
pub open spec fn with_rate(report: EncoderReport, ec: EncoderConfig) -> EncoderReport {
    EncoderReport { bitrate_kbps: ec.bitrate_kbps, fps: ec.fps, ..report }
}

/// Whether a reconfigure changes the session's shape in its integer terms: there was no
/// configuration, or the width, height or frame rate differ. (A change of output scale also
/// changes the shape; the scale is a float and is compared by the caller.)
pub open spec fn spec_shape_changed(before: Option<EncoderConfig>, ec: EncoderConfig) -> bool {
    match before {
        Some(b) => b.width != ec.width || b.height != ec.height || b.fps != ec.fps,
        None => true,
    }
}

/// Whether a reconfigure to `ec` changes the session's shape in its integer terms.
pub fn shape_changed(before: Option<EncoderConfig>, ec: EncoderConfig) -> (changed: bool)
    ensures
        changed == spec_shape_changed(before, ec),
{
    match before {
        Some(b) => b.width != ec.width || b.height != ec.height || b.fps != ec.fps,
        None => true,
    }
}

/// What one render tick does.
#[derive(Debug, Clone, Copy, PartialEq, Eq, Structural)]
pub struct TickPlan {
    /// Composite a frame and submit it to the encoder.
    pub render: bool,
    /// Publish this shedding divisor to the viewer.
    pub publish_divisor: Option<u32>,
    /// The pipeline just became incomplete (`Some(true)`: warn) or whole again
    /// (`Some(false)`: say so).
    pub gap_change: Option<bool>,
    /// Send every mapped window its frame callback.
    pub frame_callbacks: bool,
}

/// The session's lifecycle state.
pub struct SessionState {
    active: bool,
    config: Option<EncoderConfig>,
    report: Option<EncoderReport>,
    frame_seq: u64,
    gap_logged: bool,
}

impl SessionState {
    /// Whether a session runs.
    pub closed spec fn spec_active(&self) -> bool {
        self.active
    }

    /// The encoder configuration the session runs with.
    pub closed spec fn spec_config(&self) -> Option<EncoderConfig> {
        self.config
    }

    /// The encoder report the session runs with.
    pub closed spec fn spec_report(&self) -> Option<EncoderReport> {
        self.report
    }

    /// Composites made in this session.
    pub closed spec fn spec_frame_seq(&self) -> u64 {
        self.frame_seq
    }

    /// Whether an incomplete pipeline has been reported and not yet cleared.
    pub closed spec fn spec_gap_logged(&self) -> bool {
        self.gap_logged
    }

    /// No session yet.
    pub fn new() -> (s: Self)
        ensures
            !s.spec_active(),
            s.spec_config() is None,
            s.spec_report() is None,
            s.spec_frame_seq() == 0,
            !s.spec_gap_logged(),
    {
        SessionState {
            active: false,
            config: None,
            report: None,
            frame_seq: 0,
            gap_logged: false,
        }
    }

    /// Whether a session runs.
    pub fn active(&self) -> (a: bool)
        ensures
            a == self.spec_active(),
    {
        self.active
    }

    /// Start a session with encoder configuration `ec`, given how opening the GPU went and
    /// how building its pipeline went. Refused, changing nothing, while a session runs. A GPU
    /// that could not be opened is the answer, and nothing changes either. Otherwise the viewer
    /// is attached at full rate and the composite counter restarts before the pipeline is
    /// built; a pipeline that could not be built leaves no session, and its error is the
    /// answer. A built one makes the session run with `ec`, and its report, with the bitrate
    /// and frame rate of `ec`, is recorded and returned.
    pub fn start(
        &mut self,
        viewer: &mut ViewerState,
        ec: EncoderConfig,
        gpu: Result<(), CompositorError>,
        built: Result<EncoderReport, CompositorError>,
    ) -> (r: Result<EncoderReport, CompositorError>)
        ensures
            old(self).spec_active() ==> r matches Err(CompositorError::SessionAlreadyActive),
            (old(self).spec_active() || gpu is Err) ==> {
                &&& final(self).spec_active() == old(self).spec_active()
                &&& final(self).spec_config() == old(self).spec_config()
                &&& final(self).spec_report() == old(self).spec_report()
                &&& final(self).spec_frame_seq() == old(self).spec_frame_seq()
                &&& final(self).spec_gap_logged() == old(self).spec_gap_logged()
                &&& *final(viewer) == *old(viewer)
            },
            !old(self).spec_active() ==> match gpu {
                Err(e) => r == Err::<EncoderReport, CompositorError>(e),
                Ok(_) => {
                    &&& final(self).spec_frame_seq() == 0
                    &&& final(self).spec_gap_logged() == old(self).spec_gap_logged()
                    &&& final(viewer).spec_attached()
                    &&& final(viewer).spec_visible() == old(viewer).spec_visible()
                    &&& !final(viewer).spec_strained()
                    &&& final(viewer).spec_congestion().is_fresh()
                    &&& final(viewer).spec_published() == 1
                    &&& match built {
                        Err(e) => {
                            &&& r == Err::<EncoderReport, CompositorError>(e)
                            &&& !final(self).spec_active()
                            &&& final(self).spec_config() == old(self).spec_config()
                            &&& final(self).spec_report() == old(self).spec_report()
                        },
                        Ok(b) => {
                            &&& r == Ok::<EncoderReport, CompositorError>(with_rate(b, ec))
                            &&& final(self).spec_active()
                            &&& final(self).spec_config() == Some(ec)
                            &&& final(self).spec_report() == Some(with_rate(b, ec))
                        },
                    }
                },
            },
    {
        if self.active {
            return Err(CompositorError::SessionAlreadyActive);
        }
        if let Err(e) = gpu {
            return Err(e);
        }
        viewer.session_started();
        self.frame_seq = 0;
        match built {
            Err(e) => Err(e),
            Ok(b) => {
                let report = EncoderReport { bitrate_kbps: ec.bitrate_kbps, fps: ec.fps, ..b };
                let answer = report.duplicate();
                self.config = Some(ec);
                self.report = Some(report);
                self.active = true;
                Ok(answer)
            },
        }
    }

    /// Reconfigure the running session to `ec`, given how rebuilding its pipeline went.
    /// Without a session it is refused and nothing changes. A pipeline that could not be
    /// rebuilt is the answer and the recorded configuration stays. A rebuilt one records `ec`
    /// and its report (with the bitrate and frame rate of `ec`), returns the report, resets
    /// the shedding controller and the viewer's strain, publishes full rate and asks for a
    /// keyframe: the stream's parameters changed.
    pub fn reconfigure(
        &mut self,
        viewer: &mut ViewerState,
        ec: EncoderConfig,
        built: Result<EncoderReport, CompositorError>,
    ) -> (r: (
        Result<EncoderReport, CompositorError>,
        Option<ViewerAction>,
    ))
        ensures
            !old(self).spec_active() ==> {
                &&& r.0 matches Err(CompositorError::Other(m)) && m@ == NO_SESSION_TO_RECONFIGURE@
                &&& r.1 is None
                &&& final(self).spec_active() == old(self).spec_active()
                &&& final(self).spec_config() == old(self).spec_config()
                &&& final(self).spec_report() == old(self).spec_report()
                &&& final(self).spec_frame_seq() == old(self).spec_frame_seq()
                &&& final(self).spec_gap_logged() == old(self).spec_gap_logged()
                &&& *final(viewer) == *old(viewer)
            },
            old(self).spec_active() ==> {
                &&& final(self).spec_active()
                &&& final(self).spec_frame_seq() == old(self).spec_frame_seq()
                &&& final(self).spec_gap_logged() == old(self).spec_gap_logged()
                &&& match built {
                    Err(e) => {
                        &&& r.0 == Err::<EncoderReport, CompositorError>(e)
                        &&& r.1 is None
                        &&& final(self).spec_config() == old(self).spec_config()
                        &&& final(self).spec_report() == old(self).spec_report()
                        &&& *final(viewer) == *old(viewer)
                    },
                    Ok(b) => {
                        &&& r.0 == Ok::<EncoderReport, CompositorError>(with_rate(b, ec))
                        &&& r.1 == Some(ViewerAction { force_keyframe: true, publish_divisor: Some(1) })
                        &&& final(self).spec_config() == Some(ec)
                        &&& final(self).spec_report() == Some(with_rate(b, ec))
                        &&& final(viewer).spec_congestion().is_fresh()
                        &&& !final(viewer).spec_strained()
                        &&& final(viewer).spec_published() == 1
                        &&& final(viewer).spec_attached() == old(viewer).spec_attached()
                        &&& final(viewer).spec_visible() == old(viewer).spec_visible()
                    },
                }
            },
    {
        if !self.active {
            return (Err(CompositorError::other(NO_SESSION_TO_RECONFIGURE)), None);
        }
        match built {
            Err(e) => (Err(e), None),
            Ok(b) => {
                let report = EncoderReport { bitrate_kbps: ec.bitrate_kbps, fps: ec.fps, ..b };
                let answer = report.duplicate();
                self.config = Some(ec);
                self.report = Some(report);
                let act = viewer.reconfigured();
                (Ok(answer), Some(act))
            },
        }
    }

    /// Stop the session: forget its configuration and report, every window still waiting to
    /// be placed, and the cascade of placed windows, so the next session starts its cascade at
    /// the first step. Nothing happens without a session, so a second stop is a no-op; the
    /// answer says whether there was a session to stop.
    pub fn stop(&mut self, pending: &mut PendingPlacements, cascade_count: &mut u32) -> (stopped: bool)
        ensures
            stopped == old(self).spec_active(),
            !final(self).spec_active(),
            final(self).spec_frame_seq() == old(self).spec_frame_seq(),
            final(self).spec_gap_logged() == old(self).spec_gap_logged(),
            old(self).spec_active() ==> {
                &&& final(self).spec_config() is None
                &&& final(self).spec_report() is None
                &&& final(pending)@ == Seq::<u64>::empty()
                &&& *final(cascade_count) == 0
            },
            !old(self).spec_active() ==> {
                &&& final(self).spec_config() == old(self).spec_config()
                &&& final(self).spec_report() == old(self).spec_report()
                &&& final(pending)@ == old(pending)@
                &&& *final(cascade_count) == *old(cascade_count)
            },
    {
        if !self.active {
            return false;
        }
        self.active = false;
        self.config = None;
        self.report = None;
        pending.clear();
        *cascade_count = 0;
        true
    }

    /// The answer to a status request: the encoder report while a session runs, else none.
    pub fn status(&self) -> (r: Option<EncoderReport>)
        ensures
            r == (if self.spec_active() { self.spec_report() } else { None }),
    {
        if !self.active {
            return None;
        }
        match &self.report {
            Some(rep) => Some(rep.duplicate()),
            None => None,
        }
    }

    /// The encoder configuration the session runs with, as a downgrade needs it.
    pub fn config(&self) -> (c: Option<EncoderConfig>)
        ensures
            c == self.spec_config(),
    {
        self.config
    }

    /// One render tick. Nothing happens without a session and an output. Otherwise an
    /// incomplete pipeline is noted once (and its end once), the viewer state decides whether
    /// this tick composites — never without a whole pipeline, an attached viewer and a page on
    /// screen, and only then is the shedding controller consulted — every composite is
    /// counted, and every mapped window gets its frame callback whether or not this tick
    /// composited.
    pub fn render_tick(
        &mut self,
        viewer: &mut ViewerState,
        output_ready: bool,
        pipeline_ready: bool,
        dropped_total: u64,
    ) -> (plan: TickPlan)
        ensures
            final(self).spec_active() == old(self).spec_active(),
            final(self).spec_config() == old(self).spec_config(),
            final(self).spec_report() == old(self).spec_report(),
            !(old(self).spec_active() && output_ready) ==> {
                &&& plan == (TickPlan { render: false, publish_divisor: None, gap_change: None, frame_callbacks: false })
                &&& final(self).spec_frame_seq() == old(self).spec_frame_seq()
                &&& final(self).spec_gap_logged() == old(self).spec_gap_logged()
                &&& *final(viewer) == *old(viewer)
            },
            old(self).spec_active() && output_ready ==> {
                &&& plan.frame_callbacks
                &&& final(self).spec_frame_seq() == if plan.render {
                    if old(self).spec_frame_seq() < u64::MAX { old(self).spec_frame_seq() + 1 } else { 0 }
                } else {
                    old(self).spec_frame_seq() as int
                }
                &&& (!pipeline_ready && !old(self).spec_gap_logged()) ==> final(self).spec_gap_logged()
                    && plan.gap_change == Some(true)
                &&& (pipeline_ready && old(self).spec_gap_logged()) ==> !final(self).spec_gap_logged()
                    && plan.gap_change == Some(false)
                &&& (pipeline_ready != old(self).spec_gap_logged()) ==> final(self).spec_gap_logged() == old(
                    self,
                ).spec_gap_logged() && plan.gap_change is None
                &&& final(viewer).spec_attached() == old(viewer).spec_attached()
                &&& final(viewer).spec_visible() == old(viewer).spec_visible()
                &&& final(viewer).spec_strained() == old(viewer).spec_strained()
                &&& !(pipeline_ready && old(viewer).spec_attached() && old(viewer).spec_visible()) ==> {
                    &&& !plan.render
                    &&& final(viewer).spec_congestion() == old(viewer).spec_congestion()
                }
                &&& pipeline_ready && old(viewer).spec_attached() && old(viewer).spec_visible() ==> {
                    let step = old(viewer).spec_congestion().spec_step(dropped_total, old(viewer).spec_strained());
                    &&& final(viewer).spec_congestion() == step.0
                    &&& plan.render == step.1
                }
                &&& plan.publish_divisor == if final(viewer).spec_congestion().spec_divisor() != old(
                    viewer,
                ).spec_published() {
                    Some(final(viewer).spec_congestion().spec_divisor())
                } else {
                    None
                }
            },
    {
        if !(self.active && output_ready) {
            return TickPlan { render: false, publish_divisor: None, gap_change: None, frame_callbacks: false };
        }
        let mut gap_change: Option<bool> = None;
        if !pipeline_ready && !self.gap_logged {
            self.gap_logged = true;
            gap_change = Some(true);
        }
        if pipeline_ready && self.gap_logged {
            self.gap_logged = false;
            gap_change = Some(false);
        }
        let (render, publish_divisor) = viewer.render_this_tick(pipeline_ready, dropped_total);
        if render {
            self.frame_seq = self.frame_seq.wrapping_add(1);
        }
        TickPlan { render, publish_divisor, gap_change, frame_callbacks: true }
    }

    /// Composites made in this session, the sequence number of presentation feedback.
    pub fn frame_seq(&self) -> (n: u64)
        ensures
            n == self.spec_frame_seq(),
    {
        self.frame_seq
    }
}

} // verus!
