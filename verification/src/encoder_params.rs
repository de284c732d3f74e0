//! The numbers the encoders are opened with: keyframe cadence and rate control.
//!
//! Both encoders run low-latency CBR with no B-frames. In `Periodic` keyframe mode the GOP is
//! the configured keyframe interval. In `OnDemand` mode keyframes come from connects and
//! picture-loss requests, so the GOP only has to be effectively infinite — but a
//! pathologically long one (fps × 3600 is 432 000 frames at 120 fps) can stall a VAAPI encoder
//! under bursts of change, so it is ten seconds of frames, never more than 1200.

use vstd::prelude::*;
use crate::conf::KeyframeMode;

verus! {

/// Duration of the on-demand GOP, in seconds.
pub const ON_DEMAND_GOP_SECS: u32 = 10;

/// Hard ceiling on the on-demand GOP, in frames, whatever the frame rate.
pub const ON_DEMAND_GOP_MAX: u32 = 1200;

/// `x` with zero read as one.
pub open spec fn at_least_one(x: u32) -> u32 {
    if x >= 1 { x } else { 1 }
}

/// The on-demand GOP at `fps`: ten seconds of frames, at most [`ON_DEMAND_GOP_MAX`].
pub open spec fn spec_on_demand_gop(fps: u32) -> u32 {
    if ON_DEMAND_GOP_SECS * at_least_one(fps) <= ON_DEMAND_GOP_MAX {
        (ON_DEMAND_GOP_SECS * at_least_one(fps)) as u32
    } else {
        ON_DEMAND_GOP_MAX
    }
}

/// The GOP length for a keyframe mode: the configured interval (at least one) when periodic,
/// the bounded on-demand GOP otherwise.
pub open spec fn spec_gop(mode: KeyframeMode, fps: u32, keyframe_interval: u32) -> u32 {
    match mode {
        KeyframeMode::Periodic => at_least_one(keyframe_interval),
        KeyframeMode::OnDemand => spec_on_demand_gop(fps),
    }
}

/// The on-demand GOP for a frame rate.
pub fn on_demand_gop(fps: u32) -> (gop: u32)
    ensures
        gop == spec_on_demand_gop(fps),
        1 <= gop <= ON_DEMAND_GOP_MAX,
{
    let fps: u32 = if fps >= 1 { fps } else { 1 };
    if fps <= ON_DEMAND_GOP_MAX / ON_DEMAND_GOP_SECS {
        fps * ON_DEMAND_GOP_SECS
    } else {
        ON_DEMAND_GOP_MAX
    }
}

/// The GOP length an encoder is opened with.
pub fn gop_length(mode: KeyframeMode, fps: u32, keyframe_interval: u32) -> (gop: u32)
    ensures
        gop == spec_gop(mode, fps, keyframe_interval),
        gop >= 1,
{
    match mode {
        KeyframeMode::Periodic => if keyframe_interval >= 1 { keyframe_interval } else { 1 },
        KeyframeMode::OnDemand => on_demand_gop(fps),
    }
}

/// x264's `(max, min)` keyframe intervals. Periodic pins a fixed cadence, min equal to max;
/// on demand allows an IDR at any frame and forces one only at the end of the on-demand GOP.
/// The intervals are x264's `int`s; an interval past `i32::MAX` wraps as the cast does.
pub fn x264_keyframe_intervals(mode: KeyframeMode, fps: u32, keyframe_interval: u32) -> (r: (i32, i32))
    ensures
        r.0 == spec_gop(mode, fps, keyframe_interval) as i32,
        r.1 == match mode {
            KeyframeMode::Periodic => spec_gop(mode, fps, keyframe_interval) as i32,
            KeyframeMode::OnDemand => 1i32,
        },
{
    let gop = gop_length(mode, fps, keyframe_interval);
    match mode {
        KeyframeMode::Periodic => (gop as i32, gop as i32),
        KeyframeMode::OnDemand => (gop as i32, 1),
    }
}

/// The rate control an `h264_vaapi` encoder is opened with.
#[derive(Debug, Clone, Copy, PartialEq, Eq)]
pub struct VaapiRateControl {
    /// The frame rate, as the time base's denominator and the frame rate's numerator.
    pub fps: i32,
    pub gop_size: i32,
    /// Bits per second; CBR, so also the maximum and minimum rate.
    pub bit_rate: i64,
    pub rc_max_rate: i64,
    pub rc_min_rate: i64,
    /// About one second of video buffering verifier, in bits (the codec's `int`; a rate past
    /// `i32::MAX` wraps as the cast does).
    pub rc_buffer_size: i32,
}

/// The CBR settings for a VAAPI session: the frame rate (at least one), the GOP for the keyframe
/// mode, and a bitrate of `bitrate_kbps * 1000` as target, ceiling, floor and buffer size.
pub fn vaapi_rate_control(fps: u32, bitrate_kbps: u32, keyframe_interval: u32, mode: KeyframeMode) -> (rc: VaapiRateControl)
    ensures
        rc.fps == at_least_one(fps) as i32,
        rc.gop_size == spec_gop(mode, fps, keyframe_interval) as i32,
        rc.bit_rate == bitrate_kbps * 1000,
        rc.rc_max_rate == rc.bit_rate,
        rc.rc_min_rate == rc.bit_rate,
        rc.rc_buffer_size == rc.bit_rate as i32,
{
    let fps1: u32 = if fps >= 1 { fps } else { 1 };
    let gop = gop_length(mode, fps, keyframe_interval);
    let bit_rate: i64 = (bitrate_kbps as i64) * 1000;
    VaapiRateControl {
        fps: fps1 as i32,
        gop_size: gop as i32,
        bit_rate,
        rc_max_rate: bit_rate,
        rc_min_rate: bit_rate,
        rc_buffer_size: bit_rate as i32,
    }
}

} // verus!
