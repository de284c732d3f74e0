//! Fullscreen: an application asking to own the whole output, and the windowed geometry it
//! goes back to.
//!
//! The geometry is remembered on the way in, before the configure that replaces it, and only
//! the first time: a client that asks twice must not overwrite its real geometry with the
//! fullscreen one it already has. It is kept apart from what maximize remembers, because a
//! window can be maximized and then fullscreened. On the way out the remembered size is fitted
//! to the output again — the output may have been reconfigured meanwhile — and a window with
//! nothing remembered is handed back to the client to size.

use vstd::prelude::*;
use std::collections::HashMap;
use crate::fit::{shrink_to, spec_shrink_to};
use crate::geometry::{Point, Size};

verus! {

broadcast use vstd::std_specs::hash::group_hash_axioms;

/// A window's windowed geometry: where it was and how big.
#[derive(Debug, Clone, Copy, PartialEq, Eq, Structural)]
pub struct Restore {
    pub loc: Point,
    pub size: Size,
}

/// Windowed geometry remembered for the windows that are fullscreen, by window.
pub struct FullscreenMemo {
    saved: HashMap<u64, Restore>,
}

impl View for FullscreenMemo {
    type V = Map<u64, Restore>;

    closed spec fn view(&self) -> Map<u64, Restore> {
        self.saved@
    }
}

/// The memo after `window` goes fullscreen from `loc` (`None`: it is not placed) at `size`.
pub open spec fn spec_enter(m: Map<u64, Restore>, window: u64, loc: Option<Point>, size: Size) -> Map<
    u64,
    Restore,
> {
    match loc {
        Some(l) => if m.contains_key(window) {
            m
        } else {
            m.insert(window, Restore { loc: l, size })
        },
        None => m,
    }
}

/// A remembered size put back onto the output: fitted to it when there is one.
pub open spec fn refit(size: Size, output: Option<Size>) -> Size {
    match output {
        Some(o) => match spec_shrink_to(size, o) {
            Some(f) => f,
            None => size,
        },
        None => size,
    }
}

/// Where `window` goes when it leaves fullscreen: its remembered location, or the origin; and
/// its remembered size refitted to the output, or `None` for the client to choose.
pub open spec fn spec_leave(m: Map<u64, Restore>, window: u64, output: Option<Size>) -> (Point, Option<Size>) {
    if m.contains_key(window) {
        (m[window].loc, Some(refit(m[window].size, output)))
    } else {
        (Point { x: 0, y: 0 }, None)
    }
}

impl FullscreenMemo {
    /// Nothing remembered.
    pub fn new() -> (memo: Self)
        ensures
            memo@ == Map::<u64, Restore>::empty(),
    {
        FullscreenMemo { saved: HashMap::new() }
    }

    /// `window` goes fullscreen from `loc` (`None` when it is not placed) at `size`: remember
    /// that, unless something is remembered for it already.
    pub fn enter(&mut self, window: u64, loc: Option<Point>, size: Size)
        ensures
            final(self)@ == spec_enter(old(self)@, window, loc, size),
    {
        if let Some(l) = loc {
            if !self.saved.contains_key(&window) {
                self.saved.insert(window, Restore { loc: l, size });
            }
        }
    }

    /// `window` leaves fullscreen: forget its geometry and say where it goes back to and at
    /// what size, given the output's size when there is an output.
    pub fn leave(&mut self, window: u64, output: Option<Size>) -> (r: (Point, Option<Size>))
        ensures
            final(self)@ == old(self)@.remove(window),
            r == spec_leave(old(self)@, window, output),
    {
        match self.saved.remove(&window) {
            Some(restore) => {
                let size = match output {
                    Some(o) => match shrink_to(restore.size, o) {
                        Some(f) => f,
                        None => restore.size,
                    },
                    None => restore.size,
                };
                (restore.loc, Some(size))
            },
            None => (Point { x: 0, y: 0 }, None),
        }
    }
}

/// Asking for fullscreen again changes nothing: the geometry remembered the first time stays.
pub proof fn law_asking_twice_keeps_the_windowed_geometry(
    m: Map<u64, Restore>,
    window: u64,
    loc: Point,
    size: Size,
    again_loc: Option<Point>,
    again_size: Size,
)
    ensures
        spec_enter(spec_enter(m, window, Some(loc), size), window, again_loc, again_size) == spec_enter(
            m,
            window,
            Some(loc),
            size,
        ),
{
}

/// Leaving fullscreen undoes entering it: the window goes back where it was, at the size it
/// had fitted to the output, and nothing is left remembered that was not before.
pub proof fn law_leaving_restores_what_entering_saved(
    m: Map<u64, Restore>,
    window: u64,
    loc: Point,
    size: Size,
    output: Option<Size>,
)
    requires
        !m.contains_key(window),
    ensures
        spec_leave(spec_enter(m, window, Some(loc), size), window, output) == (loc, Some(refit(size, output))),
        spec_enter(m, window, Some(loc), size).remove(window) == m,
{
    assert(spec_enter(m, window, Some(loc), size).remove(window) =~= m);
}

} // verus!
