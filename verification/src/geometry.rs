//! Logical-space geometry: points, sizes and rectangles in the output's logical pixels.

use vstd::prelude::*;

verus! {

/// A point in logical coordinates.
#[derive(Debug, Clone, Copy, PartialEq, Eq, Structural)]
pub struct Point {
    pub x: i32,
    pub y: i32,
}

/// A size in logical pixels.
#[derive(Debug, Clone, Copy, PartialEq, Eq, Structural)]
pub struct Size {
    pub w: i32,
    pub h: i32,
}

/// An axis-aligned rectangle: its top-left corner and its size.
#[derive(Debug, Clone, Copy, PartialEq, Eq, Structural)]
pub struct Rectangle {
    pub loc: Point,
    pub size: Size,
}

impl Size {
    /// A size with no area: either side is zero or negative.
    pub open spec fn spec_is_empty(self) -> bool {
        self.w <= 0 || self.h <= 0
    }

    /// Whether the size has no area.
    pub fn is_empty(&self) -> (e: bool)
        ensures
            e == self.spec_is_empty(),
    {
        self.w <= 0 || self.h <= 0
    }
}

impl Rectangle {
    /// The rectangle at `loc` with size `size`.
    pub fn new(loc: Point, size: Size) -> (r: Rectangle)
        ensures
            r.loc == loc,
            r.size == size,
    {
        Rectangle { loc, size }
    }
}

/// Whether two rectangles share some area: their intersection has positive width and height.
pub open spec fn overlaps(a: Rectangle, b: Rectangle) -> bool {
    let left = if a.loc.x >= b.loc.x { a.loc.x as int } else { b.loc.x as int };
    let right = if a.loc.x + a.size.w <= b.loc.x + b.size.w { a.loc.x + a.size.w } else { b.loc.x + b.size.w };
    let top = if a.loc.y >= b.loc.y { a.loc.y as int } else { b.loc.y as int };
    let bottom = if a.loc.y + a.size.h <= b.loc.y + b.size.h { a.loc.y + a.size.h } else { b.loc.y + b.size.h };
    left < right && top < bottom
}

/// Whether two rectangles share area, as a test can ask it.
pub fn rects_overlap(a: Rectangle, b: Rectangle) -> (o: bool)
    ensures
        o == overlaps(a, b),
{
    let left: i64 = if a.loc.x >= b.loc.x { a.loc.x as i64 } else { b.loc.x as i64 };
    let ar: i64 = a.loc.x as i64 + a.size.w as i64;
    let br: i64 = b.loc.x as i64 + b.size.w as i64;
    let right: i64 = if ar <= br { ar } else { br };
    let top: i64 = if a.loc.y >= b.loc.y { a.loc.y as i64 } else { b.loc.y as i64 };
    let ab: i64 = a.loc.y as i64 + a.size.h as i64;
    let bb: i64 = b.loc.y as i64 + b.size.h as i64;
    let bottom: i64 = if ab <= bb { ab } else { bb };
    left < right && top < bottom
}

} // verus!
