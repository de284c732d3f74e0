//! Turning a quality preset into a CBR target for the resolution actually being encoded.
//!
//! A preset names a bits-per-pixel budget anchored at 1280×720, and the target follows the
//! pixel count, so 1080p gets the same bits per pixel as 720p instead of less than half.
//! Frame rate is deliberately not in the formula, and there is a ceiling: nothing on the send
//! path measures the link, so an uncapped target is a promise the network never agreed to.

use vstd::prelude::*;

verus! {

/// The resolution the presets are calibrated at.
pub const BASE_PIXELS: u64 = 921_600;

/// Never ask for more than this, whatever the resolution.
pub const CEILING_KBPS: u32 = 12_000;

/// Never ask for less than this; below it even a still picture breaks up.
pub const FLOOR_KBPS: u32 = 1_000;

/// `x` held to `[FLOOR_KBPS, CEILING_KBPS]`.
pub open spec fn clamp_kbps(x: int) -> int {
    if x < FLOOR_KBPS {
        FLOOR_KBPS as int
    } else if x > CEILING_KBPS {
        CEILING_KBPS as int
    } else {
        x
    }
}

/// The unclamped scaled target: the base budget times the pixel count over the base pixel
/// count, rounded down.
pub open spec fn scaled_kbps(base_kbps: u32, width: u32, height: u32) -> int {
    (base_kbps * (width * height)) / (BASE_PIXELS as int)
}

/// The target for a preset at a resolution. A zero-sized output keeps the base budget.
pub open spec fn spec_for_resolution(base_kbps: u32, width: u32, height: u32) -> int {
    if width * height == 0 {
        clamp_kbps(base_kbps as int)
    } else {
        clamp_kbps(scaled_kbps(base_kbps, width, height))
    }
}

/// Scale a preset's 720p budget to `width`×`height`, clamped to a deliverable range. The
/// product of the budget and the pixel count is taken in 128 bits, so no output is too large:
/// the ceiling holds however large it gets.
pub fn for_resolution(base_kbps: u32, width: u32, height: u32) -> (kbps: u32)
    ensures
        kbps == spec_for_resolution(base_kbps, width, height),
        FLOOR_KBPS <= kbps <= CEILING_KBPS,
{
    proof {
        assert((width as int) * (height as int) <= (u32::MAX as int) * (u32::MAX as int)) by (nonlinear_arith)
            requires
                width <= u32::MAX,
                height <= u32::MAX,
                0 <= width,
                0 <= height,
        ;
    }
    let pixels: u64 = (width as u64) * (height as u64);
    if pixels == 0 {
        return clamp(base_kbps);
    }
    proof {
        assert(pixels == width * height);
        assert((base_kbps as int) * (pixels as int) <= (u32::MAX as int) * (u64::MAX as int)) by (nonlinear_arith)
            requires
                base_kbps <= u32::MAX,
                pixels <= u64::MAX,
                0 <= base_kbps,
                0 <= pixels,
        ;
    }
    let scaled: u128 = (base_kbps as u128 * pixels as u128) / (BASE_PIXELS as u128);
    if scaled > CEILING_KBPS as u128 {
        CEILING_KBPS
    } else {
        clamp(scaled as u32)
    }
}

/// `x` held to `[FLOOR_KBPS, CEILING_KBPS]`.
fn clamp(x: u32) -> (r: u32)
    ensures
        r == clamp_kbps(x as int),
{
    if x < FLOOR_KBPS {
        FLOOR_KBPS
    } else if x > CEILING_KBPS {
        CEILING_KBPS
    } else {
        x
    }
}

/// Scaling never inverts the preset order: at one resolution, a larger budget never gets a
/// smaller target.
pub proof fn law_scaling_keeps_the_preset_order(low: u32, high: u32, width: u32, height: u32)
    requires
        low <= high,
    ensures
        spec_for_resolution(low, width, height) <= spec_for_resolution(high, width, height),
{
    let p = width * height;
    assert(0 <= p) by (nonlinear_arith)
        requires
            0 <= width,
            0 <= height,
            p == width * height,
    ;
    assert(low * p <= high * p) by (nonlinear_arith)
        requires
            low <= high,
            0 <= p,
    ;
    assert((low * p) / (BASE_PIXELS as int) <= (high * p) / (BASE_PIXELS as int)) by (nonlinear_arith)
        requires
            low * p <= high * p,
            0 <= low * p,
    ;
}

/// The ceiling holds however large the output gets: a scaled target at or past it is exactly
/// the ceiling.
pub proof fn law_the_ceiling_holds_for_any_output(base_kbps: u32, width: u32, height: u32)
    requires
        width * height > 0,
        scaled_kbps(base_kbps, width, height) >= CEILING_KBPS,
    ensures
        spec_for_resolution(base_kbps, width, height) == CEILING_KBPS,
{
}

/// The preset is left exactly as it is at the resolution it was tuned for.
pub proof fn law_the_baseline_resolution_is_unchanged(base_kbps: u32)
    ensures
        spec_for_resolution(base_kbps, 1280, 720) == clamp_kbps(base_kbps as int),
{
    assert(1280 * 720 == BASE_PIXELS);
    assert((base_kbps * BASE_PIXELS) / (BASE_PIXELS as int) == base_kbps) by (nonlinear_arith);
}

/// The target follows the pixel count: for one preset, an output with more pixels never gets
/// a smaller target (a zero-sized output, which keeps the base budget, aside).
pub proof fn law_the_target_follows_the_pixel_count(base_kbps: u32, w1: u32, h1: u32, w2: u32, h2: u32)
    requires
        1 <= w1 * h1 <= w2 * h2,
    ensures
        spec_for_resolution(base_kbps, w1, h1) <= spec_for_resolution(base_kbps, w2, h2),
{
    let p1 = w1 * h1;
    let p2 = w2 * h2;
    assert(base_kbps * p1 <= base_kbps * p2) by (nonlinear_arith)
        requires
            p1 <= p2,
            0 <= base_kbps,
    ;
    assert(0 <= base_kbps * p1) by (nonlinear_arith)
        requires
            0 <= p1,
            0 <= base_kbps,
    ;
    assert((base_kbps * p1) / (BASE_PIXELS as int) <= (base_kbps * p2) / (BASE_PIXELS as int)) by (nonlinear_arith)
        requires
            base_kbps * p1 <= base_kbps * p2,
            0 <= base_kbps * p1,
    ;
}

} // verus!
