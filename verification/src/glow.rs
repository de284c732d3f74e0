//! A glow around the focused window, drawn by the compositor because it is the only party
//! that knows which window the next window action will act on.
//!
//! Each ring is four solid rectangles tiled around the window's geometry so they never cover
//! the window or each other: the top and bottom bars carry the corners, the left and right
//! bars stop at the window's own height. A second, wider ring at low alpha outside the first
//! fakes the falloff. Nothing overlapping is what lets a translucent ring look even instead of
//! blotchy where two quads meet.

use vstd::prelude::*;
use crate::geometry::{Point, Rectangle, Size, overlaps};

verus! {

/// One ring: how far outside the window it starts and how thick it is, in logical pixels.
#[derive(Debug, Clone, Copy, PartialEq, Eq, Structural)]
pub struct Ring {
    pub inset: i32,
    pub thickness: i32,
}

/// The rings, inside out: a 2-pixel border hard against the window, and a 5-pixel glow just
/// outside it.
pub fn rings() -> (r: [Ring; 2])
    ensures
        r@[0] == (Ring { inset: 0, thickness: 2 }),
        r@[1] == (Ring { inset: 2, thickness: 5 }),
        r@[1].inset == r@[0].inset + r@[0].thickness,
{
    [Ring { inset: 0, thickness: 2 }, Ring { inset: 2, thickness: 5 }]
}

/// Whether `v` is a 32-bit signed value.
pub open spec fn fits_i32(v: int) -> bool {
    i32::MIN <= v <= i32::MAX
}

/// Whether every coordinate and extent a ring computes fits in 32 bits.
pub open spec fn ring_fits(geo: Rectangle, inset: i32, thickness: i32) -> bool {
    let out = inset + thickness;
    let (x, y, w, h) = (geo.loc.x as int, geo.loc.y as int, geo.size.w as int, geo.size.h as int);
    &&& fits_i32(out)
    &&& fits_i32(x - out)
    &&& fits_i32(y - out)
    &&& fits_i32(2 * out)
    &&& fits_i32(w + 2 * out)
    &&& fits_i32(y + h)
    &&& fits_i32(y + h + inset)
    &&& fits_i32(y - inset)
    &&& fits_i32(2 * inset)
    &&& fits_i32(h + 2 * inset)
    &&& fits_i32(x + w)
    &&& fits_i32(x + w + inset)
}

/// A rectangle whose negative extents are read as zero.
pub open spec fn spec_rect(x: int, y: int, w: int, h: int) -> Rectangle {
    Rectangle {
        loc: Point { x: x as i32, y: y as i32 },
        size: Size { w: (if w >= 0 { w } else { 0 }) as i32, h: (if h >= 0 { h } else { 0 }) as i32 },
    }
}

/// The four rectangles of one ring around `geo`: top, bottom, left, right.
pub open spec fn spec_ring_rects(geo: Rectangle, inset: i32, thickness: i32) -> Seq<Rectangle> {
    let out = inset + thickness;
    let (x, y, w, h) = (geo.loc.x as int, geo.loc.y as int, geo.size.w as int, geo.size.h as int);
    seq![
        spec_rect(x - out, y - out, w + 2 * out, thickness as int),
        spec_rect(x - out, y + h + inset, w + 2 * out, thickness as int),
        spec_rect(x - out, y - inset, thickness as int, h + 2 * inset),
        spec_rect(x + w + inset, y - inset, thickness as int, h + 2 * inset),
    ]
}

/// A rectangle whose negative extents are read as zero.
fn rect(x: i32, y: i32, w: i32, h: i32) -> (r: Rectangle)
    ensures
        r == spec_rect(x as int, y as int, w as int, h as int),
{
    Rectangle {
        loc: Point { x, y },
        size: Size { w: if w >= 0 { w } else { 0 }, h: if h >= 0 { h } else { 0 } },
    }
}

/// The four rectangles of one ring around `geo`: top, bottom, left, right. The top and bottom
/// bars span the corners; the left and right bars stop at the window's own height.
pub fn ring_rects(geo: Rectangle, inset: i32, thickness: i32) -> (rects: [Rectangle; 4])
    requires
        ring_fits(geo, inset, thickness),
    ensures
        rects@ == spec_ring_rects(geo, inset, thickness),
{
    let (x, y, w, h) = (geo.loc.x, geo.loc.y, geo.size.w, geo.size.h);
    let out = inset + thickness;
    let rects = [
        rect(x - out, y - out, w + 2 * out, thickness),
        rect(x - out, y + h + inset, w + 2 * out, thickness),
        rect(x - out, y - inset, thickness, h + 2 * inset),
        rect(x + w + inset, y - inset, thickness, h + 2 * inset),
    ];
    proof {
        assert(rects@ =~= spec_ring_rects(geo, inset, thickness));
    }
    rects
}

/// The rectangles to draw around the focused window at `geo`: nothing when no window is
/// focused or it has no size yet, otherwise each ring's four rectangles, inside ring first.
pub open spec fn spec_glow_rects(geo: Option<Rectangle>) -> Seq<Rectangle> {
    match geo {
        Some(g) => if g.size.spec_is_empty() {
            Seq::empty()
        } else {
            spec_ring_rects(g, 0, 2) + spec_ring_rects(g, 2, 5)
        },
        None => Seq::empty(),
    }
}

/// The rectangles to draw around the focused window, in the output's logical coordinates.
pub fn glow_rects(geo: Option<Rectangle>) -> (rects: Vec<Rectangle>)
    requires
        geo matches Some(g) ==> (!g.size.spec_is_empty() ==> ring_fits(g, 0, 2) && ring_fits(g, 2, 5)),
    ensures
        rects@ == spec_glow_rects(geo),
{
    let mut out: Vec<Rectangle> = Vec::new();
    let g = match geo {
        Some(g) => g,
        None => return out,
    };
    if g.size.is_empty() {
        return out;
    }
    let all = rings();
    let mut k: usize = 0;
    while k < 2
        invariant
            k <= 2,
            all@[0] == (Ring { inset: 0, thickness: 2 }),
            all@[1] == (Ring { inset: 2, thickness: 5 }),
            ring_fits(g, 0, 2),
            ring_fits(g, 2, 5),
            out@ == if k == 0 {
                Seq::<Rectangle>::empty()
            } else if k == 1 {
                spec_ring_rects(g, 0, 2)
            } else {
                spec_ring_rects(g, 0, 2) + spec_ring_rects(g, 2, 5)
            },
        decreases 2 - k,
    {
        let ring = all[k];
        let rects = ring_rects(g, ring.inset, ring.thickness);
        let mut j: usize = 0;
        let ghost before = out@;
        while j < 4
            invariant
                j <= 4,
                rects@ == spec_ring_rects(g, ring.inset, ring.thickness),
                out@ == before + rects@.subrange(0, j as int),
            decreases 4 - j,
        {
            out.push(rects[j]);
            j = j + 1;
            proof {
                assert(out@ =~= before + rects@.subrange(0, j as int));
            }
        }
        proof {
            assert(rects@.subrange(0, 4) =~= rects@);
        }
        k = k + 1;
        proof {
            if k == 1 {
                assert(out@ =~= spec_ring_rects(g, 0, 2));
            }
        }
    }
    out
}

/// A ring never covers the window it surrounds, and its four rectangles never cover each
/// other.
pub proof fn law_a_ring_encloses_without_touching(geo: Rectangle, inset: i32, thickness: i32)
    requires
        geo.size.w >= 0,
        geo.size.h >= 0,
        inset >= 0,
        thickness >= 0,
        ring_fits(geo, inset, thickness),
    ensures
        forall|k: int| 0 <= k < 4 ==> !overlaps(#[trigger] spec_ring_rects(geo, inset, thickness)[k], geo),
        forall|j: int, k: int|
            0 <= j < k < 4 ==> !overlaps(
                #[trigger] spec_ring_rects(geo, inset, thickness)[j],
                #[trigger] spec_ring_rects(geo, inset, thickness)[k],
            ),
{
    let r = spec_ring_rects(geo, inset, thickness);
    assert(!overlaps(r[0], geo));
    assert(!overlaps(r[1], geo));
    assert(!overlaps(r[2], geo));
    assert(!overlaps(r[3], geo));
    assert(!overlaps(r[0], r[1]));
    assert(!overlaps(r[0], r[2]));
    assert(!overlaps(r[0], r[3]));
    assert(!overlaps(r[1], r[2]));
    assert(!overlaps(r[1], r[3]));
    assert(!overlaps(r[2], r[3]));
}

/// A ring that starts where another ends sits wholly outside it: none of its rectangles covers
/// any of the inner ring's, and its top bar ends exactly where the inner one's begins.
pub proof fn law_the_outer_ring_sits_outside_the_inner_one(
    geo: Rectangle,
    inner: Ring,
    outer: Ring,
)
    requires
        geo.size.w >= 0,
        geo.size.h >= 0,
        inner.inset >= 0,
        inner.thickness >= 0,
        outer.thickness >= 0,
        outer.inset == inner.inset + inner.thickness,
        ring_fits(geo, inner.inset, inner.thickness),
        ring_fits(geo, outer.inset, outer.thickness),
    ensures
        forall|j: int, k: int|
            0 <= j < 4 && 0 <= k < 4 ==> !overlaps(
                #[trigger] spec_ring_rects(geo, inner.inset, inner.thickness)[j],
                #[trigger] spec_ring_rects(geo, outer.inset, outer.thickness)[k],
            ),
        spec_ring_rects(geo, outer.inset, outer.thickness)[0].loc.y + spec_ring_rects(
            geo,
            outer.inset,
            outer.thickness,
        )[0].size.h == spec_ring_rects(geo, inner.inset, inner.thickness)[0].loc.y,
{
    let a = spec_ring_rects(geo, inner.inset, inner.thickness);
    let b = spec_ring_rects(geo, outer.inset, outer.thickness);
    assert forall|j: int, k: int| 0 <= j < 4 && 0 <= k < 4 implies !overlaps(#[trigger] a[j], #[trigger] b[k]) by {
        if j == 0 {
            assert(!overlaps(a[0], b[k]));
        } else if j == 1 {
            assert(!overlaps(a[1], b[k]));
        } else if j == 2 {
            assert(!overlaps(a[2], b[k]));
        } else {
            assert(!overlaps(a[3], b[k]));
        }
    }
}

/// Everything the glow draws around a window leaves the window uncovered, and no two of its
/// rectangles cover each other, so the translucent rings look even.
pub proof fn law_the_glow_never_overlaps_itself_or_the_window(geo: Rectangle)
    requires
        geo.size.w > 0,
        geo.size.h > 0,
        ring_fits(geo, 0, 2),
        ring_fits(geo, 2, 5),
    ensures
        spec_glow_rects(Some(geo)).len() == 8,
        forall|k: int| 0 <= k < 8 ==> !overlaps(#[trigger] spec_glow_rects(Some(geo))[k], geo),
        forall|j: int, k: int|
            0 <= j < k < 8 ==> !overlaps(
                #[trigger] spec_glow_rects(Some(geo))[j],
                #[trigger] spec_glow_rects(Some(geo))[k],
            ),
{
    let inner = spec_ring_rects(geo, 0, 2);
    let outer = spec_ring_rects(geo, 2, 5);
    let all = spec_glow_rects(Some(geo));
    assert(all =~= inner + outer);
    law_a_ring_encloses_without_touching(geo, 0, 2);
    law_a_ring_encloses_without_touching(geo, 2, 5);
    law_the_outer_ring_sits_outside_the_inner_one(geo, Ring { inset: 0, thickness: 2 }, Ring { inset: 2, thickness: 5 });
    assert forall|k: int| 0 <= k < 8 implies !overlaps(#[trigger] all[k], geo) by {
        if k < 4 {
            assert(all[k] == inner[k]);
        } else {
            assert(all[k] == outer[k - 4]);
        }
    }
    assert forall|j: int, k: int| 0 <= j < k < 8 implies !overlaps(#[trigger] all[j], #[trigger] all[k]) by {
        if k < 4 {
            assert(all[j] == inner[j] && all[k] == inner[k]);
        } else if j >= 4 {
            assert(all[j] == outer[j - 4] && all[k] == outer[k - 4]);
        } else {
            assert(all[j] == inner[j] && all[k] == outer[k - 4]);
        }
    }
}

} // verus!
