//! Keeping windows inside the output.
//!
//! An application must not open, or stay, bigger than the screen it is streamed to. The fit is
//! a per-axis clamp, not an aspect-preserving one: fitting a window to the screen means a
//! maximum, and shrinking a 2000×500 window to 640×160 to keep its shape would be a worse
//! answer than the overflow.

use vstd::prelude::*;
use crate::geometry::Size;

verus! {

/// The size a window of size `window` should be configured at to fit `output`, or `None` when
/// it already fits — or when either size is not real yet (not positive), since a window
/// without a size has committed no buffer and an output without one is being torn down.
pub open spec fn spec_shrink_to(window: Size, output: Size) -> Option<Size> {
    if output.w <= 0 || output.h <= 0 || window.w <= 0 || window.h <= 0 {
        None
    } else {
        let fitted = Size {
            w: if window.w <= output.w { window.w } else { output.w },
            h: if window.h <= output.h { window.h } else { output.h },
        };
        if fitted == window { None } else { Some(fitted) }
    }
}

/// The size `window` should be configured at to fit `output`, or `None` when it already fits
/// and must be left alone. `None` rather than the same size on purpose: every caller turns the
/// answer into a configure, and a configure that changes nothing still makes the client redraw.
pub fn shrink_to(window: Size, output: Size) -> (fitted: Option<Size>)
    ensures
        fitted == spec_shrink_to(window, output),
{
    if output.w <= 0 || output.h <= 0 || window.w <= 0 || window.h <= 0 {
        return None;
    }
    let fitted = Size {
        w: if window.w <= output.w { window.w } else { output.w },
        h: if window.h <= output.h { window.h } else { output.h },
    };
    if fitted == window {
        None
    } else {
        Some(fitted)
    }
}

/// A shrunk window fits the output on both axes, never grows on either, and keeps the size of
/// any axis that already fitted.
pub proof fn law_a_fitted_window_fits(window: Size, output: Size)
    ensures
        spec_shrink_to(window, output) matches Some(f) ==> {
            &&& 0 < f.w <= output.w && f.w <= window.w
            &&& 0 < f.h <= output.h && f.h <= window.h
            &&& (window.w <= output.w ==> f.w == window.w)
            &&& (window.h <= output.h ==> f.h == window.h)
            &&& f != window
        },
        spec_shrink_to(window, output) is None && window.w > 0 && window.h > 0 && output.w > 0 && output.h
            > 0 ==> window.w <= output.w && window.h <= output.h,
{
}

/// Fitting is settled after one step: the fitted size already fits, so fitting it again asks
/// for nothing.
pub proof fn law_fitting_twice_asks_nothing(window: Size, output: Size)
    ensures
        spec_shrink_to(window, output) matches Some(f) ==> spec_shrink_to(f, output) is None,
{
}

/// The smallest side a resize allows: the client's minimum, and never below one pixel.
pub open spec fn min_side(client_min: i32) -> i32 {
    if client_min >= 1 { client_min } else { 1 }
}

/// The largest side a resize allows: the client's maximum, where zero means no maximum.
pub open spec fn max_side(client_max: i32) -> i32 {
    if client_max == 0 { i32::MAX } else { client_max }
}

/// One side of an interactive resize: raised to the minimum, then lowered to the maximum.
pub open spec fn resize_side(proposed: i32, client_min: i32, client_max: i32) -> i32 {
    let raised = if proposed >= min_side(client_min) { proposed } else { min_side(client_min) };
    if raised <= max_side(client_max) { raised } else { max_side(client_max) }
}

/// The size an interactive resize asks a window for, given the size the drag proposes and the
/// client's minimum and maximum sizes.
pub fn resize_size(proposed: Size, client_min: Size, client_max: Size) -> (s: Size)
    ensures
        s.w == resize_side(proposed.w, client_min.w, client_max.w),
        s.h == resize_side(proposed.h, client_min.h, client_max.h),
{
    Size { w: clamp_side(proposed.w, client_min.w, client_max.w), h: clamp_side(proposed.h, client_min.h, client_max.h) }
}

/// One side of [`resize_size`].
fn clamp_side(proposed: i32, client_min: i32, client_max: i32) -> (v: i32)
    ensures
        v == resize_side(proposed, client_min, client_max),
{
    let lo: i32 = if client_min >= 1 { client_min } else { 1 };
    let hi: i32 = if client_max == 0 { i32::MAX } else { client_max };
    let raised = if proposed >= lo { proposed } else { lo };
    if raised <= hi { raised } else { hi }
}

/// A resize honours the client's limits whenever they can be honoured together: the side it
/// asks for lies between the minimum and the maximum, is at least one pixel, and is the
/// proposed side itself when that was already within them.
pub proof fn law_a_resize_stays_within_the_client_limits(proposed: i32, client_min: i32, client_max: i32)
    requires
        min_side(client_min) <= max_side(client_max),
    ensures
        min_side(client_min) <= resize_side(proposed, client_min, client_max) <= max_side(client_max),
        resize_side(proposed, client_min, client_max) >= 1,
        min_side(client_min) <= proposed <= max_side(client_max) ==> resize_side(proposed, client_min, client_max)
            == proposed,
{
}

/// The bounds a new toplevel is told to stay within: the output's size, when it is a real
/// size. An output with no area is being torn down and bounds nothing.
pub fn advertise_bounds(output: Size) -> (bounds: Option<Size>)
    ensures
        bounds == (if output.w <= 0 || output.h <= 0 { None } else { Some(output) }),
{
    if output.w <= 0 || output.h <= 0 {
        None
    } else {
        Some(output)
    }
}

/// The size a window of size `window` ends up at on `output`: fitted when it is too big.
pub open spec fn spec_fit(window: Size, output: Size) -> Size {
    match spec_shrink_to(window, output) {
        Some(f) => f,
        None => window,
    }
}

/// The size a window of size `window` will end up at on `output`: the fitted size when it is
/// too big, its own size otherwise. A caller places the window by this size, the one asked
/// for, so it is not left off-centre the moment the client complies.
pub fn fit(window: Size, output: Size) -> (s: Size)
    ensures
        s == spec_fit(window, output),
{
    match shrink_to(window, output) {
        Some(f) => f,
        None => window,
    }
}

} // verus!
