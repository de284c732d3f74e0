//! Session configuration: the client-facing knobs of a session, and their resolution into the
//! concrete encoder parameters a session is built with.

use vstd::prelude::*;
use crate::bitrate::{for_resolution, spec_for_resolution};
use crate::text::{chars_of, lower_ascii_seq};

verus! {

pub const DEFAULT_WIDTH: u32 = 1280;
pub const DEFAULT_HEIGHT: u32 = 720;
pub const DEFAULT_FPS: u32 = 60;

/// Which encode backend a session prefers.
#[derive(Debug, Clone, Copy, PartialEq, Eq, Structural)]
pub enum EncoderBackend {
    /// Hardware if it opens, software otherwise.
    Auto,
    /// The GPU, or fail.
    Hardware,
    /// x264 only.
    Software,
}

/// Whether the engaged encoder runs on the GPU or the CPU.
#[derive(Debug, Clone, Copy, PartialEq, Eq, Structural)]
pub enum EncoderMode {
    Hardware,
    Software,
}

/// How keyframes are produced: only on request (connect, picture loss), or on a fixed cadence.
#[derive(Debug, Clone, Copy, PartialEq, Eq, Structural)]
pub enum KeyframeMode {
    OnDemand,
    Periodic,
}

/// The client's quality preset.
#[derive(Debug, Clone, Copy, PartialEq, Eq, Structural)]
pub enum Quality {
    Reactivity,
    Balanced,
    Quality,
    Custom { bitrate_kbps: u32 },
}

/// The x264 speed/quality presets, fastest first.
#[derive(Debug, Clone, Copy, PartialEq, Eq, Structural)]
pub enum Preset {
    Ultrafast,
    Superfast,
    Veryfast,
    Faster,
    Fast,
    Medium,
    Slow,
    Slower,
    Veryslow,
    Placebo,
}

/// The client's encoder preference.
#[derive(Debug, Clone, Copy, PartialEq, Eq)]
pub struct EncoderPrefs {
    pub backend: EncoderBackend,
}

/// The client's latency tuning.
#[derive(Debug, Clone, Copy, PartialEq, Eq)]
pub struct Tuning {
    /// The master low-latency lock: forces on-demand keyframes.
    pub zero_latency: bool,
    pub keyframe_mode: KeyframeMode,
}

/// The encoder-facing part of a client's session request.
#[derive(Debug, Clone)]
pub struct SessionConfig {
    pub width: u32,
    pub height: u32,
    pub fps: u32,
    pub quality: Quality,
    /// Overrides the preset's keyframe interval when present.
    pub keyframe_interval: Option<u32>,
    /// Overrides the preset's x264 preset when present, by name.
    pub preset: Option<String>,
    pub encoder: EncoderPrefs,
    pub tuning: Tuning,
}

/// Encoder and capture parameters.
#[derive(Debug, Clone, Copy)]
pub struct EncoderConfig {
    pub width: u32,
    pub height: u32,
    pub fps: u32,
    /// CBR target in kbps.
    pub bitrate_kbps: u32,
    /// Frames between IDR keyframes when `keyframe_mode` is `Periodic`.
    pub keyframe_interval: u32,
    /// x264 preset; the software path only.
    pub preset: Preset,
    pub backend: EncoderBackend,
    /// The master low-latency lock (informational; its keyframe effect is in `keyframe_mode`).
    pub zero_latency: bool,
    /// Effective keyframe strategy after applying the `zero_latency` lock.
    pub keyframe_mode: KeyframeMode,
}

/// Where encoded H.264 frames are delivered (for standalone runs).
#[derive(Debug, Clone)]
pub enum SinkTarget {
    /// Raw Annex-B bytes appended to a file.
    File(String),
}

/// Output parameters.
#[derive(Debug, Clone)]
pub struct OutputConfig {
    pub sink: SinkTarget,
    /// Log per-frame encode time to stderr.
    pub log_encode_stats: bool,
}

/// Top-level runtime configuration for a session.
#[derive(Debug, Clone)]
pub struct WadoConfig {
    pub encoder: EncoderConfig,
    pub output: OutputConfig,
}

impl WadoConfig {
    /// The standalone defaults: 720p60 at 4000 kbps, a keyframe every 30 frames, the fastest
    /// preset, automatic backend, and a file sink.
    pub fn new() -> (c: Self)
        ensures
            c.encoder.width == DEFAULT_WIDTH,
            c.encoder.height == DEFAULT_HEIGHT,
            c.encoder.fps == DEFAULT_FPS,
            c.encoder.bitrate_kbps == 4000,
            c.encoder.keyframe_interval == 30,
            c.encoder.preset == Preset::Ultrafast,
            c.encoder.backend == EncoderBackend::Auto,
            !c.encoder.zero_latency,
            c.encoder.keyframe_mode == KeyframeMode::Periodic,
            c.output.sink matches SinkTarget::File(p) && p@ == "captures/wado.h264"@,
            !c.output.log_encode_stats,
    {
        WadoConfig {
            encoder: EncoderConfig {
                width: DEFAULT_WIDTH,
                height: DEFAULT_HEIGHT,
                fps: DEFAULT_FPS,
                bitrate_kbps: 4000,
                keyframe_interval: 30,
                preset: Preset::Ultrafast,
                backend: EncoderBackend::Auto,
                zero_latency: false,
                keyframe_mode: KeyframeMode::Periodic,
            },
            output: OutputConfig {
                sink: SinkTarget::File(String::from_str("captures/wado.h264")),
                log_encode_stats: false,
            },
        }
    }
}

impl Default for WadoConfig {
    fn default() -> (c: Self)
        ensures
            c.encoder.width == DEFAULT_WIDTH,
            c.encoder.height == DEFAULT_HEIGHT,
            c.encoder.fps == DEFAULT_FPS,
            c.encoder.bitrate_kbps == 4000,
            c.encoder.keyframe_interval == 30,
            c.encoder.preset == Preset::Ultrafast,
            c.encoder.backend == EncoderBackend::Auto,
            !c.encoder.zero_latency,
            c.encoder.keyframe_mode == KeyframeMode::Periodic,
    {
        WadoConfig::new()
    }
}

/// The preset a name selects, compared without regard to ASCII case; anything else is the
/// fastest preset.
pub open spec fn spec_parse_preset(name: Seq<char>) -> Preset {
    let lower = lower_ascii_seq(name);
    if lower == "ultrafast"@ {
        Preset::Ultrafast
    } else if lower == "superfast"@ {
        Preset::Superfast
    } else if lower == "veryfast"@ {
        Preset::Veryfast
    } else if lower == "faster"@ {
        Preset::Faster
    } else if lower == "fast"@ {
        Preset::Fast
    } else if lower == "medium"@ {
        Preset::Medium
    } else {
        Preset::Ultrafast
    }
}

/// Each x264 preset name a client may send selects the preset it names, whatever its ASCII
/// case: `ultrafast`, `superfast`, `veryfast`, `faster`, `fast` and `medium`.
pub proof fn law_each_preset_name_selects_its_preset(name: Seq<char>)
    ensures
        lower_ascii_seq(name) == "ultrafast"@ ==> spec_parse_preset(name) == Preset::Ultrafast,
        lower_ascii_seq(name) == "superfast"@ ==> spec_parse_preset(name) == Preset::Superfast,
        lower_ascii_seq(name) == "veryfast"@ ==> spec_parse_preset(name) == Preset::Veryfast,
        lower_ascii_seq(name) == "faster"@ ==> spec_parse_preset(name) == Preset::Faster,
        lower_ascii_seq(name) == "fast"@ ==> spec_parse_preset(name) == Preset::Fast,
        lower_ascii_seq(name) == "medium"@ ==> spec_parse_preset(name) == Preset::Medium,
{
    reveal_strlit("ultrafast");
    reveal_strlit("superfast");
    reveal_strlit("veryfast");
    reveal_strlit("faster");
    reveal_strlit("fast");
    reveal_strlit("medium");
    assert("ultrafast"@[0] != "superfast"@[0]);
    assert("ultrafast"@ != "superfast"@);
    assert("faster"@.len() != "ultrafast"@.len());
    assert("faster"@.len() != "veryfast"@.len());
    assert("fast"@.len() != "ultrafast"@.len());
    assert("fast"@.len() != "veryfast"@.len());
    assert("fast"@.len() != "faster"@.len());
    assert("medium"@[0] != "faster"@[0]);
    assert("medium"@ != "faster"@);
    assert("medium"@.len() != "ultrafast"@.len());
    assert("medium"@.len() != "veryfast"@.len());
    assert("medium"@.len() != "fast"@.len());
}

/// Is `s` exactly the characters of the literal `lit`?
fn chars_equal(s: &Vec<char>, lit: &str) -> (eq: bool)
    ensures
        eq == (s@ == lit@),
{
    let n = lit.unicode_len();
    if s.len() != n {
        return false;
    }
    let mut i: usize = 0;
    while i < n
        invariant
            n == lit@.len(),
            s@.len() == n,
            i <= n,
            forall|j: int| 0 <= j < i ==> s@[j] == lit@[j],
        decreases n - i,
    {
        if s[i] != lit.get_char(i) {
            return false;
        }
        i = i + 1;
    }
    assert(s@ =~= lit@);
    true
}

/// Parse an x264 preset name; unknown names fall back to `Ultrafast`.
pub fn parse_preset(name: &str) -> (p: Preset)
    ensures
        p == spec_parse_preset(name@),
{
    let lower = crate::text::to_ascii_lowercase(&chars_of(name));
    if chars_equal(&lower, "ultrafast") {
        Preset::Ultrafast
    } else if chars_equal(&lower, "superfast") {
        Preset::Superfast
    } else if chars_equal(&lower, "veryfast") {
        Preset::Veryfast
    } else if chars_equal(&lower, "faster") {
        Preset::Faster
    } else if chars_equal(&lower, "fast") {
        Preset::Fast
    } else if chars_equal(&lower, "medium") {
        Preset::Medium
    } else {
        Preset::Ultrafast
    }
}

/// The 720p budget, default preset and default keyframe interval a quality preset stands for,
/// at frame rate `fps`: Reactivity is 2000 kbps with about one second between keyframes,
/// Balanced 4000 kbps and Quality 8000 kbps with about two, and Custom its own bitrate with
/// about two.
pub open spec fn quality_defaults(quality: Quality, fps: u32) -> (u32, Preset, int) {
    match quality {
        Quality::Reactivity => (2000, Preset::Ultrafast, fps as int),
        Quality::Balanced => (4000, Preset::Ultrafast, 2 * fps),
        Quality::Quality => (8000, Preset::Veryfast, 2 * fps),
        Quality::Custom { bitrate_kbps } => (bitrate_kbps, Preset::Ultrafast, 2 * fps),
    }
}

/// The CBR target a session asks for: a named preset's 720p budget scaled to the session's
/// resolution, or a custom bitrate as it was given.
pub open spec fn session_bitrate(quality: Quality, width: u32, height: u32, fps: u32) -> int {
    match quality {
        Quality::Custom { bitrate_kbps } => bitrate_kbps as int,
        _ => spec_for_resolution(quality_defaults(quality, fps).0, width, height),
    }
}

/// `fps`, with zero read as one.
pub open spec fn effective_fps(fps: u32) -> u32 {
    if fps >= 1 { fps } else { 1 }
}

/// Resolve a client's session request into concrete encoder parameters: the quality preset's
/// defaults, overridden by any explicit keyframe interval or preset name, with the zero-latency
/// lock forcing on-demand keyframes.
pub fn to_encoder_config(config: &SessionConfig) -> (ec: EncoderConfig)
    requires
        config.quality is Reactivity || 2 * effective_fps(config.fps) <= u32::MAX,
    ensures
        ec.width == config.width,
        ec.height == config.height,
        ec.fps == effective_fps(config.fps),
        ec.bitrate_kbps == session_bitrate(config.quality, config.width, config.height, effective_fps(config.fps)),
        ec.keyframe_interval == match config.keyframe_interval {
            Some(k) => k as int,
            None => quality_defaults(config.quality, effective_fps(config.fps)).2,
        },
        ec.preset == match config.preset {
            Some(name) => spec_parse_preset(name@),
            None => quality_defaults(config.quality, effective_fps(config.fps)).1,
        },
        ec.backend == config.encoder.backend,
        ec.zero_latency == config.tuning.zero_latency,
        ec.keyframe_mode == if config.tuning.zero_latency {
            KeyframeMode::OnDemand
        } else {
            config.tuning.keyframe_mode
        },
{
    let fps: u32 = if config.fps >= 1 { config.fps } else { 1 };
    // A named preset is a bits-per-pixel budget anchored at 720p: the target follows the
    // session's pixel count. A custom bitrate is taken as given.
    let (bitrate_kbps, default_preset, default_kf): (u32, Preset, u32) = match config.quality {
        Quality::Reactivity => (for_resolution(2000, config.width, config.height), Preset::Ultrafast, fps),
        Quality::Balanced => (for_resolution(4000, config.width, config.height), Preset::Ultrafast, fps * 2),
        Quality::Quality => (for_resolution(8000, config.width, config.height), Preset::Veryfast, fps * 2),
        Quality::Custom { bitrate_kbps } => (bitrate_kbps, Preset::Ultrafast, fps * 2),
    };
    // The zero-latency master lock forces on-demand keyframes; otherwise honour the knob.
    let keyframe_mode = if config.tuning.zero_latency {
        KeyframeMode::OnDemand
    } else {
        config.tuning.keyframe_mode
    };
    let keyframe_interval: u32 = match config.keyframe_interval {
        Some(k) => k,
        None => default_kf,
    };
    let preset = match &config.preset {
        Some(name) => parse_preset(name.as_str()),
        None => default_preset,
    };
    EncoderConfig {
        width: config.width,
        height: config.height,
        fps,
        bitrate_kbps,
        keyframe_interval,
        preset,
        backend: config.encoder.backend,
        zero_latency: config.tuning.zero_latency,
        keyframe_mode,
    }
}

} // verus!
