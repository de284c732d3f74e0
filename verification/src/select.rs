//! Pipeline tier selection. A tier couples a capture strategy with an encoder; tiers are tried
//! best first (zero-copy hardware, then CPU-upload hardware, then software) and the first that
//! opens wins. This module decides which tiers are eligible for a backend preference, the
//! order they are tried in, and how each is reported to the client.
//!
//! - `vaapi-dmabuf`: DMA-BUF zero-copy, VAAPI post-processing, `h264_vaapi`.
//! - `vaapi-cpu`: memory read-back, CPU NV12 conversion, upload, `h264_vaapi`.
//! - `x264-cpu`: memory read-back, x264 software.

use vstd::prelude::*;
use crate::conf::{EncoderBackend, EncoderMode, KeyframeMode};
use crate::error::CompositorError;

verus! {

/// One pipeline tier, best (lowest latency) first.
#[derive(Debug, Clone, Copy, PartialEq, Eq, Structural)]
pub enum Tier {
    VaapiDma,
    VaapiCpu,
    X264,
}

/// What a session's encoder actually is, as reported to the client.
#[derive(Debug, Clone)]
pub struct EncoderReport {
    pub mode: EncoderMode,
    pub codec: String,
    pub backend: String,
    pub pipeline: String,
    pub keyframe: String,
    /// The bitrate the encoder was built with; filled in once the config is resolved.
    pub bitrate_kbps: u32,
    /// The frame rate the encoder was built with; filled in once the config is resolved.
    pub fps: u32,
}

/// The tier that follows `t` on the downgrade ladder.
pub open spec fn spec_next(t: Tier) -> Option<Tier> {
    match t {
        Tier::VaapiDma => Some(Tier::VaapiCpu),
        Tier::VaapiCpu => Some(Tier::X264),
        Tier::X264 => None,
    }
}

/// A tier's place on the ladder: 0 is the best.
pub open spec fn rank(t: Tier) -> int {
    match t {
        Tier::VaapiDma => 0,
        Tier::VaapiCpu => 1,
        Tier::X264 => 2,
    }
}

/// The tiers to try for a backend preference, in order.
pub open spec fn spec_tiers_for(backend: EncoderBackend, gbm_available: bool) -> Seq<Tier> {
    match backend {
        EncoderBackend::Software => seq![Tier::X264],
        EncoderBackend::Hardware => if gbm_available {
            seq![Tier::VaapiDma, Tier::VaapiCpu]
        } else {
            seq![Tier::VaapiCpu]
        },
        EncoderBackend::Auto => if gbm_available {
            seq![Tier::VaapiDma, Tier::VaapiCpu, Tier::X264]
        } else {
            seq![Tier::VaapiCpu, Tier::X264]
        },
    }
}

impl EncoderReport {
    /// A copy of the report.
    pub fn duplicate(&self) -> (c: Self)
        ensures
            c == *self,
    {
        EncoderReport {
            mode: self.mode,
            codec: self.codec.clone(),
            backend: self.backend.clone(),
            pipeline: self.pipeline.clone(),
            keyframe: self.keyframe.clone(),
            bitrate_kbps: self.bitrate_kbps,
            fps: self.fps,
        }
    }
}

impl Tier {
    /// The next tier to try after this one fails at runtime (downgrade-once).
    pub fn next(self) -> (n: Option<Tier>)
        ensures
            n == spec_next(self),
    {
        match self {
            Tier::VaapiDma => Some(Tier::VaapiCpu),
            Tier::VaapiCpu => Some(Tier::X264),
            Tier::X264 => None,
        }
    }

    /// The wire report for this tier, given the engaged keyframe mode. The bitrate and frame
    /// rate are left at zero for the caller to fill in from the resolved config.
    pub fn report(self, keyframe_mode: KeyframeMode) -> (r: EncoderReport)
        ensures
            r.mode == (if self == Tier::X264 { EncoderMode::Software } else { EncoderMode::Hardware }),
            r.codec@ == "h264"@,
            r.backend@ == (if self == Tier::X264 { "x264"@ } else { "vaapi"@ }),
            r.pipeline@ == match self {
                Tier::VaapiDma => "vaapi-dmabuf"@,
                Tier::VaapiCpu => "vaapi-cpu"@,
                Tier::X264 => "x264-cpu"@,
            },
            r.keyframe@ == match keyframe_mode {
                KeyframeMode::OnDemand => "on-demand"@,
                KeyframeMode::Periodic => "periodic"@,
            },
            r.bitrate_kbps == 0,
            r.fps == 0,
    {
        let (mode, codec, backend, pipeline) = match self {
            Tier::VaapiDma => (EncoderMode::Hardware, "h264", "vaapi", "vaapi-dmabuf"),
            Tier::VaapiCpu => (EncoderMode::Hardware, "h264", "vaapi", "vaapi-cpu"),
            Tier::X264 => (EncoderMode::Software, "h264", "x264", "x264-cpu"),
        };
        let keyframe = match keyframe_mode {
            KeyframeMode::OnDemand => "on-demand",
            KeyframeMode::Periodic => "periodic",
        };
        EncoderReport {
            mode,
            codec: String::from_str(codec),
            backend: String::from_str(backend),
            pipeline: String::from_str(pipeline),
            keyframe: String::from_str(keyframe),
            bitrate_kbps: 0,
            fps: 0,
        }
    }
}

/// The ordered list of tiers to attempt for a backend preference. `Hardware` omits the software
/// tier; `Auto` includes everything; `Software` forces x264. The DMA tier is listed only when a
/// GBM device is available.
pub fn tiers_for(backend: EncoderBackend, gbm_available: bool) -> (tiers: Vec<Tier>)
    ensures
        tiers@ == spec_tiers_for(backend, gbm_available),
{
    let mut tiers: Vec<Tier> = Vec::new();
    match backend {
        EncoderBackend::Software => tiers.push(Tier::X264),
        EncoderBackend::Hardware => {
            if gbm_available {
                tiers.push(Tier::VaapiDma);
            }
            tiers.push(Tier::VaapiCpu);
        },
        EncoderBackend::Auto => {
            if gbm_available {
                tiers.push(Tier::VaapiDma);
            }
            tiers.push(Tier::VaapiCpu);
            tiers.push(Tier::X264);
        },
    }
    proof {
        assert(tiers@ =~= spec_tiers_for(backend, gbm_available));
    }
    tiers
}

/// The downgrade ladder only ever goes down: the next tier ranks exactly one below.
pub proof fn law_downgrade_only_goes_down(t: Tier)
    ensures
        spec_next(t) matches Some(n) ==> rank(n) == rank(t) + 1,
        spec_next(t) is None <==> t == Tier::X264,
{
}

/// The tiers for any preference are tried strictly best first, with no tier twice; the DMA
/// tier appears only with a GBM device; the software tier appears exactly unless the hardware
/// is demanded; and at least one tier is always offered.
pub proof fn law_tiers_are_best_first(backend: EncoderBackend, gbm_available: bool)
    ensures
        spec_tiers_for(backend, gbm_available).len() >= 1,
        forall|i: int, j: int|
            0 <= i < j < spec_tiers_for(backend, gbm_available).len() ==> rank(
                #[trigger] spec_tiers_for(backend, gbm_available)[i],
            ) < rank(#[trigger] spec_tiers_for(backend, gbm_available)[j]),
        spec_tiers_for(backend, gbm_available).contains(Tier::VaapiDma) ==> gbm_available,
        spec_tiers_for(backend, gbm_available).contains(Tier::X264) <==> backend != EncoderBackend::Hardware,
{
    let s = spec_tiers_for(backend, gbm_available);
    if s.contains(Tier::VaapiDma) {
        let k = choose|k: int| 0 <= k < s.len() && s[k] == Tier::VaapiDma;
        assert(gbm_available);
    }
    if backend != EncoderBackend::Hardware {
        assert(s[s.len() - 1] == Tier::X264);
    }
    if s.contains(Tier::X264) {
        let k = choose|k: int| 0 <= k < s.len() && s[k] == Tier::X264;
        assert(backend != EncoderBackend::Hardware);
    }
}

/// The tiers a runtime encode failure on `t` falls back to, in the order they are tried: each
/// one's successor on the ladder, down to the bottom.
pub open spec fn spec_fallbacks(t: Tier) -> Seq<Tier> {
    match t {
        Tier::VaapiDma => seq![Tier::VaapiCpu, Tier::X264],
        Tier::VaapiCpu => seq![Tier::X264],
        Tier::X264 => Seq::empty(),
    }
}

/// The fallbacks left once the ladder has reached `next`.
pub open spec fn spec_from(next: Option<Tier>) -> Seq<Tier> {
    match next {
        Some(n) => seq![n] + spec_fallbacks(n),
        None => Seq::empty(),
    }
}

/// How far down the ladder `next` still has to go.
pub open spec fn steps_left(next: Option<Tier>) -> int {
    match next {
        Some(n) => 3 - rank(n),
        None => 0,
    }
}

/// The tiers a runtime encode failure on `t` falls back to, in the order they are tried. The
/// walk follows the ladder alone, whatever the backend preference was: a failing tier is
/// replaced by whatever still works.
pub fn fallbacks(t: Tier) -> (f: Vec<Tier>)
    ensures
        f@ == spec_fallbacks(t),
{
    let mut out: Vec<Tier> = Vec::new();
    let mut next = t.next();
    while next.is_some()
        invariant
            out@ + spec_from(next) == spec_fallbacks(t),
        decreases steps_left(next),
    {
        let n = next.unwrap();
        proof {
            assert(out@.push(n) + spec_from(spec_next(n)) =~= out@ + spec_from(next));
        }
        out.push(n);
        next = n.next();
    }
    proof {
        assert(out@ =~= out@ + spec_from(next));
    }
    out
}

/// A runtime failure only ever falls back to worse tiers, best of them first, ending at the
/// software tier whenever there is any fallback at all.
pub proof fn law_fallbacks_only_go_down(t: Tier)
    ensures
        forall|i: int| 0 <= i < spec_fallbacks(t).len() ==> rank(t) < rank(#[trigger] spec_fallbacks(t)[i]),
        forall|i: int, j: int|
            0 <= i < j < spec_fallbacks(t).len() ==> rank(#[trigger] spec_fallbacks(t)[i]) < rank(
                #[trigger] spec_fallbacks(t)[j],
            ),
        spec_fallbacks(t).len() > 0 ==> spec_fallbacks(t).last() == Tier::X264,
        spec_fallbacks(t).len() == 2 - rank(t),
{
}

/// The answer when no tier was even tried.
pub const NO_TIER_AVAILABLE: &'static str = "no encoder tier available";

/// Whether attempt `i` of a run of build attempts succeeded.
pub open spec fn attempt_built(attempts: Seq<(Tier, Result<(), CompositorError>)>, i: int) -> bool {
    attempts[i].1 is Ok
}

/// The tier a run of build attempts `tried`, made in order (best first at a start, down the
/// ladder at a downgrade), ends on: the first that built. When none built, the last failure is the
/// answer, and with no attempt at all the answer is that no tier was available.
pub fn chosen_tier(tried: Vec<(Tier, Result<(), CompositorError>)>) -> (r: Result<Tier, CompositorError>)
    ensures
        r is Ok ==> exists|i: int|
            0 <= i < tried@.len() && #[trigger] attempt_built(tried@, i) && tried@[i].0 == r->Ok_0
                && forall|j: int| 0 <= j < i ==> !attempt_built(tried@, j),
        (exists|i: int| 0 <= i < tried@.len() && #[trigger] attempt_built(tried@, i)) <==> r is Ok,
        tried@.len() > 0 && r is Err ==> tried@.last().1 == Result::<(), CompositorError>::Err(
            r->Err_0,
        ),
        tried@.len() == 0 ==> (r matches Err(CompositorError::Encoder(m)) && m@ == NO_TIER_AVAILABLE@),
{
    let mut attempts = tried;
    let mut i: usize = 0;
    while i < attempts.len()
        invariant
            i <= attempts@.len(),
            attempts@ == tried@,
            forall|j: int| 0 <= j < i ==> !attempt_built(attempts@, j),
        decreases attempts@.len() - i,
    {
        if attempts[i].1.is_ok() {
            proof {
                assert(attempt_built(attempts@, i as int));
            }
            return Ok(attempts[i].0);
        }
        i = i + 1;
    }
    let ghost all = attempts@;
    match attempts.pop() {
        Some((_, Err(e))) => Err(e),
        Some((t, Ok(()))) => {
            proof {
                assert(attempt_built(all, all.len() - 1));
            }
            Ok(t)
        },
        None => Err(CompositorError::Encoder(String::from_str(NO_TIER_AVAILABLE))),
    }
}

} // verus!
