//! Per-viewer render state: whether anyone is watching, whether their page is on screen,
//! whether their decoder says it is saturated, and the shedding controller that answers it —
//! and what the render loop must do when each of those changes.
//!
//! A session outlives its viewers by design. A viewer detaching, or their page going off
//! screen, pauses rendering and keeps everything else; coming back resumes it and forces a
//! keyframe, since the decoder holds no reference to build on. A reconnecting viewer keeps the
//! rate its decoder earned (only the controller's patience is forgotten); a new session or a
//! reconfigured one starts at full rate.

use vstd::prelude::*;
use crate::congestion::{Congestion, valid_divisor};

verus! {

/// What the render loop must do after a viewer event.
#[derive(Debug, Clone, Copy, PartialEq, Eq, Structural)]
pub struct ViewerAction {
    /// Ask the encoder for an IDR on its next frame.
    pub force_keyframe: bool,
    /// Publish this shedding divisor to the viewer, if any.
    pub publish_divisor: Option<u32>,
}

/// The render loop's per-viewer state.
pub struct ViewerState {
    attached: bool,
    visible: bool,
    strained: bool,
    congestion: Congestion,
    /// The divisor last published to the viewer.
    published: u32,
}

impl ViewerState {
    pub closed spec fn spec_attached(&self) -> bool {
        self.attached
    }

    pub closed spec fn spec_visible(&self) -> bool {
        self.visible
    }

    pub closed spec fn spec_strained(&self) -> bool {
        self.strained
    }

    pub closed spec fn spec_congestion(&self) -> Congestion {
        self.congestion
    }

    pub closed spec fn spec_published(&self) -> u32 {
        self.published
    }

    /// Before any session: nobody attached, on screen by default, unstrained, full rate.
    pub fn new() -> (v: Self)
        ensures
            !v.spec_attached(),
            v.spec_visible(),
            !v.spec_strained(),
            v.spec_congestion().is_fresh(),
            v.spec_published() == 1,
    {
        ViewerState { attached: false, visible: true, strained: false, congestion: Congestion::new(), published: 1 }
    }

    /// Whether a viewer is attached.
    pub fn attached(&self) -> (a: bool)
        ensures
            a == self.spec_attached(),
    {
        self.attached
    }

    /// The shedding divisor in force.
    pub fn divisor(&self) -> (d: u32)
        ensures
            d == self.spec_congestion().spec_divisor(),
            valid_divisor(d),
    {
        self.congestion.divisor()
    }

    /// A session started: the viewer that asked for it is attached, unstrained, and at full
    /// rate, and full rate is published.
    pub fn session_started(&mut self) -> (act: ViewerAction)
        ensures
            final(self).spec_attached(),
            final(self).spec_visible() == old(self).spec_visible(),
            !final(self).spec_strained(),
            final(self).spec_congestion().is_fresh(),
            final(self).spec_published() == 1,
            act == (ViewerAction { force_keyframe: false, publish_divisor: Some(1) }),
    {
        self.congestion.reset();
        self.strained = false;
        self.attached = true;
        self.published = 1;
        ViewerAction { force_keyframe: false, publish_divisor: Some(1) }
    }

    /// The session was reconfigured in place: the previous shape's shedding history is not
    /// about this one, so the rate is reset and published, strain is forgotten, and the
    /// encoder must send a keyframe because the stream's parameters changed.
    pub fn reconfigured(&mut self) -> (act: ViewerAction)
        ensures
            final(self).spec_attached() == old(self).spec_attached(),
            final(self).spec_visible() == old(self).spec_visible(),
            !final(self).spec_strained(),
            final(self).spec_congestion().is_fresh(),
            final(self).spec_published() == 1,
            act == (ViewerAction { force_keyframe: true, publish_divisor: Some(1) }),
    {
        self.congestion.reset();
        self.strained = false;
        self.published = 1;
        ViewerAction { force_keyframe: true, publish_divisor: Some(1) }
    }

    /// A viewer attached or went away. Nothing happens when nothing changed. Attaching keeps
    /// the divisor the decoder earned and forgets the rest of the controller's history, clears
    /// strain, assumes the page on screen, publishes the divisor and forces a keyframe.
    /// Detaching only pauses rendering.
    pub fn set_attached(&mut self, attached: bool) -> (act: ViewerAction)
        ensures
            final(self).spec_attached() == attached,
            attached == old(self).spec_attached() ==> {
                &&& act == (ViewerAction { force_keyframe: false, publish_divisor: None })
                &&& final(self).spec_visible() == old(self).spec_visible()
                &&& final(self).spec_strained() == old(self).spec_strained()
                &&& final(self).spec_congestion() == old(self).spec_congestion()
                &&& final(self).spec_published() == old(self).spec_published()
            },
            attached && !old(self).spec_attached() ==> {
                let c = final(self).spec_congestion();
                &&& c.spec_divisor() == old(self).spec_congestion().spec_divisor()
                &&& c.spec_tick() == 0 && c.spec_last_dropped() == 0 && c.spec_clean() == 0
                &&& c.spec_strain() == 0 && c.spec_patience() == crate::congestion::RECOVER_WINDOWS
                &&& !final(self).spec_strained()
                &&& final(self).spec_visible()
                &&& final(self).spec_published() == c.spec_divisor()
                &&& act == (ViewerAction { force_keyframe: true, publish_divisor: Some(c.spec_divisor()) })
            },
            !attached && old(self).spec_attached() ==> {
                &&& act == (ViewerAction { force_keyframe: false, publish_divisor: None })
                &&& final(self).spec_visible() == old(self).spec_visible()
                &&& final(self).spec_strained() == old(self).spec_strained()
                &&& final(self).spec_congestion() == old(self).spec_congestion()
                &&& final(self).spec_published() == old(self).spec_published()
            },
    {
        if self.attached == attached {
            return ViewerAction { force_keyframe: false, publish_divisor: None };
        }
        self.attached = attached;
        if attached {
            self.congestion.reattach();
            self.strained = false;
            self.visible = true;
            let d = self.congestion.divisor();
            self.published = d;
            ViewerAction { force_keyframe: true, publish_divisor: Some(d) }
        } else {
            ViewerAction { force_keyframe: false, publish_divisor: None }
        }
    }

    /// The viewer's page went off screen or came back. Nothing happens when nothing changed;
    /// coming back forces a keyframe, since the decoder discarded everything while hidden.
    pub fn set_visible(&mut self, visible: bool) -> (act: ViewerAction)
        ensures
            final(self).spec_visible() == visible,
            final(self).spec_attached() == old(self).spec_attached(),
            final(self).spec_strained() == old(self).spec_strained(),
            final(self).spec_congestion() == old(self).spec_congestion(),
            final(self).spec_published() == old(self).spec_published(),
            act == (ViewerAction { force_keyframe: visible && !old(self).spec_visible(), publish_divisor: None }),
    {
        if self.visible == visible {
            return ViewerAction { force_keyframe: false, publish_divisor: None };
        }
        self.visible = visible;
        ViewerAction { force_keyframe: visible, publish_divisor: None }
    }

    /// The viewer's latest word on its decoder: a latched level.
    pub fn set_strained(&mut self, strained: bool)
        ensures
            final(self).spec_strained() == strained,
            final(self).spec_attached() == old(self).spec_attached(),
            final(self).spec_visible() == old(self).spec_visible(),
            final(self).spec_congestion() == old(self).spec_congestion(),
            final(self).spec_published() == old(self).spec_published(),
    {
        self.strained = strained;
    }

    /// Whether this render tick renders, and the divisor to publish if it changed. Nothing is
    /// rendered without a whole pipeline, an attached viewer and a page on screen — and then
    /// the shedding controller is not consulted, so a paused stretch says nothing about how a
    /// link was coping. Otherwise the controller decides, from the sink's drop counter and the
    /// latched strain.
    pub fn render_this_tick(&mut self, pipeline_ready: bool, dropped_total: u64) -> (r: (bool, Option<u32>))
        ensures
            final(self).spec_attached() == old(self).spec_attached(),
            final(self).spec_visible() == old(self).spec_visible(),
            final(self).spec_strained() == old(self).spec_strained(),
            !(pipeline_ready && old(self).spec_attached() && old(self).spec_visible()) ==> {
                &&& !r.0
                &&& final(self).spec_congestion() == old(self).spec_congestion()
            },
            pipeline_ready && old(self).spec_attached() && old(self).spec_visible() ==> {
                let step = old(self).spec_congestion().spec_step(dropped_total, old(self).spec_strained());
                &&& final(self).spec_congestion() == step.0
                &&& r.0 == step.1
            },
            final(self).spec_published() == final(self).spec_congestion().spec_divisor(),
            r.1 == if final(self).spec_congestion().spec_divisor() != old(self).spec_published() {
                Some(final(self).spec_congestion().spec_divisor())
            } else {
                None
            },
    {
        let render = pipeline_ready && self.attached && self.visible && self.congestion.should_render(
            dropped_total,
            self.strained,
        );
        let now = self.congestion.divisor();
        if now != self.published {
            self.published = now;
            (render, Some(now))
        } else {
            (render, None)
        }
    }
}

} // verus!
