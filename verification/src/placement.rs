//! Where windows go: new-window placement per the session's policy, and pulling windows back
//! onto an output whose geometry changed.
//!
//! Placement runs once a window has a real size (after its first commit) and after it has been
//! fitted, so a window is placed by the size it is about to have. A cascade step is clamped so
//! it never pushes a window that fits off the far edge: the step is decoration, the window
//! being reachable is not.

use vstd::prelude::*;
use crate::fit::{fit, spec_fit};
use crate::geometry::{Point, Rectangle, Size};

verus! {

/// Pixels between cascaded windows.
pub const CASCADE_STEP: i32 = 32;

/// Cascade steps before wrapping back to the origin.
pub const CASCADE_WRAP: u32 = 8;

/// The session's new-window placement policy.
#[derive(Debug, Clone, Copy, PartialEq, Eq, Structural)]
pub enum Placement {
    /// Sized to the output and marked maximized, at the output's origin.
    Maximized,
    /// At the output's origin.
    TopLeft,
    /// Centred on the output.
    Center,
    /// Stepped diagonally from the origin, one step per window, wrapping.
    Cascade,
}

/// `a` if it is at least zero, else zero.
pub open spec fn non_neg(a: int) -> int {
    if a >= 0 { a } else { 0 }
}

/// Whether every coordinate placement computes for `size` on `output` fits in 32 bits.
pub open spec fn placement_fits(output: Rectangle, size: Size) -> bool {
    let slack_w = output.size.w - size.w;
    let slack_h = output.size.h - size.h;
    &&& i32::MIN <= slack_w <= i32::MAX
    &&& i32::MIN <= slack_h <= i32::MAX
    &&& output.loc.x + non_neg(slack_w) <= i32::MAX
    &&& output.loc.y + non_neg(slack_h) <= i32::MAX
    &&& output.loc.x + (CASCADE_WRAP - 1) * CASCADE_STEP <= i32::MAX
    &&& output.loc.y + (CASCADE_WRAP - 1) * CASCADE_STEP <= i32::MAX
}

/// Where a window of `size` lands on `output` under `placement`, and the cascade counter after
/// it. Centring rounds toward the origin; a cascade takes step `count % CASCADE_WRAP` and
/// advances the counter (wrapping at `u32::MAX`), clamped so the window's far edge stays on
/// the output when it can.
pub open spec fn spec_place(placement: Placement, output: Rectangle, size: Size, cascade_count: u32) -> (Point, u32) {
    let slack_w = non_neg(output.size.w - size.w);
    let slack_h = non_neg(output.size.h - size.h);
    match placement {
        Placement::Center => (
            Point { x: (output.loc.x + slack_w / 2) as i32, y: (output.loc.y + slack_h / 2) as i32 },
            cascade_count,
        ),
        Placement::Cascade => {
            let n = (cascade_count % CASCADE_WRAP) as int;
            let step = n * CASCADE_STEP;
            (
                Point {
                    x: (if output.loc.x + step <= output.loc.x + slack_w {
                        output.loc.x + step
                    } else {
                        output.loc.x + slack_w
                    }) as i32,
                    y: (if output.loc.y + step <= output.loc.y + slack_h {
                        output.loc.y + step
                    } else {
                        output.loc.y + slack_h
                    }) as i32,
                },
                (if cascade_count < u32::MAX { cascade_count + 1 } else { 0 }) as u32,
            )
        },
        _ => (output.loc, cascade_count),
    }
}

/// Where a freshly sized window goes, and the cascade counter after placing it.
pub fn place(placement: Placement, output: Rectangle, size: Size, cascade_count: u32) -> (r: (Point, u32))
    requires
        placement_fits(output, size),
    ensures
        r == spec_place(placement, output, size, cascade_count),
{
    let slack_w: i32 = if output.size.w - size.w >= 0 { output.size.w - size.w } else { 0 };
    let slack_h: i32 = if output.size.h - size.h >= 0 { output.size.h - size.h } else { 0 };
    match placement {
        Placement::Center => {
            let x = output.loc.x + slack_w / 2;
            let y = output.loc.y + slack_h / 2;
            (Point { x, y }, cascade_count)
        },
        Placement::Cascade => {
            let n: i32 = (cascade_count % CASCADE_WRAP) as i32;
            let next: u32 = cascade_count.wrapping_add(1);
            let step: i32 = n * CASCADE_STEP;
            let far_x = output.loc.x + slack_w;
            let far_y = output.loc.y + slack_h;
            let x = if output.loc.x + step <= far_x { output.loc.x + step } else { far_x };
            let y = if output.loc.y + step <= far_y { output.loc.y + step } else { far_y };
            (Point { x, y }, next)
        },
        _ => (output.loc, cascade_count),
    }
}

/// Every placement puts the window's top-left corner on the output's span from its origin, and
/// a window that fits the output is placed wholly on it.
pub proof fn law_a_placed_window_stays_on_the_output(
    placement: Placement,
    output: Rectangle,
    size: Size,
    cascade_count: u32,
)
    requires
        placement_fits(output, size),
        size.w >= 0,
        size.h >= 0,
    ensures
        ({
            let p = spec_place(placement, output, size, cascade_count).0;
            &&& output.loc.x <= p.x <= output.loc.x + non_neg(output.size.w - size.w)
            &&& output.loc.y <= p.y <= output.loc.y + non_neg(output.size.h - size.h)
            &&& (size.w <= output.size.w ==> p.x + size.w <= output.loc.x + output.size.w)
            &&& (size.h <= output.size.h ==> p.y + size.h <= output.loc.y + output.size.h)
        }),
{
}

/// The top-left corner a window at `loc` is pulled back to on an output of `output` size at
/// the origin, or `None` when it is already on the output. Each coordinate is clamped to the
/// output's first through last pixel.
pub open spec fn spec_refit(loc: Point, output: Size) -> Option<Point> {
    let max_x = non_neg(output.w - 1);
    let max_y = non_neg(output.h - 1);
    let x = if loc.x < 0 { 0 } else if loc.x > max_x { max_x } else { loc.x as int };
    let y = if loc.y < 0 { 0 } else if loc.y > max_y { max_y } else { loc.y as int };
    if x != loc.x || y != loc.y {
        Some(Point { x: x as i32, y: y as i32 })
    } else {
        None
    }
}

/// Where to move a window whose top-left corner is off the output after its geometry changed,
/// or `None` to leave it. A window whose corner is off the screen cannot be dragged back:
/// there is nothing left to grab.
pub fn refit_location(loc: Point, output: Size) -> (moved: Option<Point>)
    ensures
        moved == spec_refit(loc, output),
{
    let max_x: i32 = if output.w > 0 { output.w - 1 } else { 0 };
    let max_y: i32 = if output.h > 0 { output.h - 1 } else { 0 };
    let x = if loc.x < 0 { 0 } else if loc.x > max_x { max_x } else { loc.x };
    let y = if loc.y < 0 { 0 } else if loc.y > max_y { max_y } else { loc.y };
    if x != loc.x || y != loc.y {
        Some(Point { x, y })
    } else {
        None
    }
}

/// After a refit, every window's corner is on the output (on its first pixel at worst), and a
/// window left alone was already there.
pub proof fn law_refit_puts_the_corner_on_the_output(loc: Point, output: Size)
    ensures
        ({
            let p = match spec_refit(loc, output) {
                Some(p) => p,
                None => loc,
            };
            &&& 0 <= p.x <= non_neg(output.w - 1)
            &&& 0 <= p.y <= non_neg(output.h - 1)
        }),
        spec_refit(loc, output) is None ==> 0 <= loc.x && 0 <= loc.y,
{
}

/// The size a new toplevel is configured at before its first commit: the output's size for a
/// maximized placement when there is an output; otherwise none, leaving the size to the client.
pub open spec fn spec_initial_size(placement: Placement, output: Option<Rectangle>) -> Option<Size> {
    match (placement, output) {
        (Placement::Maximized, Some(o)) => Some(o.size),
        _ => None,
    }
}

/// The size a new toplevel is configured at before its first commit (it is then marked
/// maximized), or `None` to let the client choose.
pub fn initial_size(placement: Placement, output: Option<Rectangle>) -> (s: Option<Size>)
    ensures
        s == spec_initial_size(placement, output),
{
    match (placement, output) {
        (Placement::Maximized, Some(o)) => Some(o.size),
        _ => None,
    }
}

/// Only a maximized placement sizes a new window, and then at exactly the output's size; under
/// every other placement, and with no output, the client chooses its own size.
pub proof fn law_only_a_maximized_window_is_sized(placement: Placement, output: Option<Rectangle>)
    ensures
        spec_initial_size(placement, output) is Some ==> placement == Placement::Maximized,
        spec_initial_size(placement, output) is Some <==> (placement == Placement::Maximized && output is Some),
        output matches Some(o) ==> (placement == Placement::Maximized ==> spec_initial_size(placement, output)
            == Some(o.size)),
{
}

/// The windows of `windows` whose entry of `alive` is true, in order.
pub open spec fn live_windows(windows: Seq<u64>, alive: Seq<bool>) -> Seq<u64>
    decreases windows.len(),
{
    if windows.len() == 0 {
        Seq::empty()
    } else {
        let rest = live_windows(windows.drop_last(), alive.drop_last());
        if alive.last() {
            rest.push(windows.last())
        } else {
            rest
        }
    }
}

/// Where a pending window that has just committed `size` goes, and what it is fitted to.
pub open spec fn spec_placed(
    size: Size,
    output: Rectangle,
    placement: Placement,
    cascade_count: u32,
) -> (Point, Size, u32) {
    let fitted = spec_fit(size, output.size);
    let (loc, next) = spec_place(placement, output, fitted, cascade_count);
    (loc, fitted, next)
}

/// Toplevels that are mapped but not yet placed: a window is placed by its first real size,
/// which only its first commit carries.
pub struct PendingPlacements {
    windows: Vec<u64>,
}

impl View for PendingPlacements {
    type V = Seq<u64>;

    closed spec fn view(&self) -> Seq<u64> {
        self.windows@
    }
}

impl PendingPlacements {
    /// Nothing pending.
    pub fn new() -> (p: Self)
        ensures
            p@ == Seq::<u64>::empty(),
    {
        PendingPlacements { windows: Vec::new() }
    }

    /// Forget every pending window, as a session ends.
    pub fn clear(&mut self)
        ensures
            final(self)@ == Seq::<u64>::empty(),
    {
        self.windows = Vec::new();
    }

    /// A new toplevel waits for its first commit. Pending windows that are gone (`alive` says
    /// which, one flag per pending window) are forgotten first.
    pub fn add(&mut self, window: u64, alive: &Vec<bool>)
        requires
            alive@.len() == old(self)@.len(),
        ensures
            final(self)@ == live_windows(old(self)@, alive@).push(window),
    {
        let mut kept: Vec<u64> = Vec::new();
        let mut i: usize = 0;
        while i < self.windows.len()
            invariant
                i <= self.windows@.len(),
                self.windows@ == old(self)@,
                alive@.len() == old(self)@.len(),
                kept@ == live_windows(self.windows@.subrange(0, i as int), alive@.subrange(0, i as int)),
            decreases self.windows@.len() - i,
        {
            proof {
                assert(self.windows@.subrange(0, i + 1).drop_last() =~= self.windows@.subrange(0, i as int));
                assert(alive@.subrange(0, i + 1).drop_last() =~= alive@.subrange(0, i as int));
            }
            if alive[i] {
                kept.push(self.windows[i]);
            }
            i = i + 1;
        }
        proof {
            assert(self.windows@.subrange(0, i as int) =~= self.windows@);
            assert(alive@.subrange(0, i as int) =~= alive@);
        }
        kept.push(window);
        self.windows = kept;
    }

    /// `window` committed at `size`. If it is pending, has a real size and there is an output,
    /// it is placed: fitted to the output, put where the placement policy says, and no longer
    /// pending; the answer is its location, its fitted size and the cascade counter after it.
    /// Otherwise nothing happens and a pending window keeps waiting.
    pub fn on_commit(
        &mut self,
        window: u64,
        size: Size,
        output: Option<Rectangle>,
        placement: Placement,
        cascade_count: u32,
    ) -> (r: Option<(Point, Size, u32)>)
        requires
            output matches Some(o) ==> placement_fits(o, spec_fit(size, o.size)),
        ensures
            !old(self)@.contains(window) || size.spec_is_empty() || output is None ==> {
                &&& r is None
                &&& final(self)@ == old(self)@
            },
            output matches Some(o) ==> (old(self)@.contains(window) && !size.spec_is_empty() ==> {
                &&& old(self)@.index_of_first(window) matches Some(i)
                &&& final(self)@ == old(self)@.remove(i)
                &&& r == Some(spec_placed(size, o, placement, cascade_count))
            }),
    {
        let mut k: usize = 0;
        while k < self.windows.len()
            invariant
                k <= self.windows@.len(),
                self.windows@ == old(self)@,
                forall|j: int| 0 <= j < k ==> self.windows@[j] != window,
            ensures
                k <= self.windows@.len(),
                self.windows@ == old(self)@,
                forall|j: int| 0 <= j < k ==> self.windows@[j] != window,
                k < self.windows@.len() ==> self.windows@[k as int] == window,
            decreases self.windows@.len() - k,
        {
            if self.windows[k] == window {
                break;
            }
            k = k + 1;
        }
        if k == self.windows.len() {
            return None;
        }
        if size.is_empty() {
            return None;
        }
        let o = match output {
            Some(o) => o,
            None => return None,
        };
        proof {
            old(self)@.index_of_first_ensures(window);
            let i = old(self)@.index_of_first(window).unwrap();
            assert(self.windows@[k as int] == window);
            assert(i == k) by {
                if i < k {
                    assert(self.windows@[i] != window);
                }
                if i > k {
                    assert(old(self)@[k as int] == window);
                }
            }
        }
        let fitted = fit(size, o.size);
        let (loc, next) = place(placement, o, fitted, cascade_count);
        self.windows.remove(k);
        proof {
            assert(self.windows@ =~= old(self)@.remove(k as int));
        }
        Some((loc, fitted, next))
    }
}

/// A window is placed once: when no window is pending twice, the one just placed is no longer
/// pending, so its later commits move nothing.
pub proof fn law_a_window_is_placed_once(pending: Seq<u64>, window: u64)
    requires
        pending.contains(window),
        forall|i: int, j: int| 0 <= i < j < pending.len() ==> pending[i] != pending[j],
    ensures
        pending.index_of_first(window) matches Some(k) && !pending.remove(k).contains(window),
{
    pending.index_of_first_ensures(window);
    let k = pending.index_of_first(window).unwrap();
    let rest = pending.remove(k);
    if rest.contains(window) {
        let m = choose|m: int| 0 <= m < rest.len() && rest[m] == window;
        if m < k {
            assert(pending[m] == window);
        } else {
            assert(pending[m + 1] == window);
        }
    }
}

} // verus!
