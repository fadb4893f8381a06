//! Axis-aligned integer rectangles used for layout and redraw-region math.
//!
//! A rectangle is the half-open region between its `min` (inclusive) and
//! `max` (exclusive) corners.  Degenerate rectangles (`min == max` on an
//! axis) are valid and mean "nothing to draw".

use vstd::prelude::*;

verus! {

/// Coordinates are kept well inside `i32` so that every sum or difference of
/// a handful of coordinates and band heights stays representable.
pub const COORD_LIMIT: i32 = 1073741823;

/// Rectangles that take part in layout stay within this bound, which leaves
/// ample headroom under `COORD_LIMIT` for sums of band heights.
pub const SCREEN_LIMIT: i32 = 1048576;

#[derive(Clone, Copy, Debug, PartialEq, Eq, Structural)]
pub struct Point {
    pub x: i32,
    pub y: i32,
}

#[derive(Clone, Copy, Debug, PartialEq, Eq, Structural)]
pub struct Rect {
    pub min: Point,
    pub max: Point,
}

impl Point {
    pub open spec fn wf(self) -> bool {
        &&& -COORD_LIMIT <= self.x <= COORD_LIMIT
        &&& -COORD_LIMIT <= self.y <= COORD_LIMIT
    }

    pub fn new(x: i32, y: i32) -> (p: Point)
        ensures
            p.x == x,
            p.y == y,
    {
        Point { x, y }
    }
}

impl Rect {
    /// Well-formedness: coordinates are in range and the corners are ordered.
    pub open spec fn wf(self) -> bool {
        &&& self.min.wf()
        &&& self.max.wf()
        &&& self.min.x <= self.max.x
        &&& self.min.y <= self.max.y
    }

    /// Well-formed and within the layout bound: what holds of every
    /// rectangle that takes part in screen layout.
    pub open spec fn on_screen(self) -> bool {
        &&& self.wf()
        &&& -SCREEN_LIMIT <= self.min.x
        &&& -SCREEN_LIMIT <= self.min.y
        &&& self.max.x <= SCREEN_LIMIT
        &&& self.max.y <= SCREEN_LIMIT
    }

    pub open spec fn spec_width(self) -> int {
        self.max.x - self.min.x
    }

    pub open spec fn spec_height(self) -> int {
        self.max.y - self.min.y
    }

    /// Whether a point lies inside the rectangle; used for hit-testing.
    pub open spec fn spec_includes(self, pt: Point) -> bool {
        &&& self.min.x <= pt.x < self.max.x
        &&& self.min.y <= pt.y < self.max.y
    }

    /// The smallest rectangle containing both `self` and `other`.
    pub open spec fn spec_union(self, other: Rect) -> Rect {
        Rect {
            min: Point {
                x: if other.min.x < self.min.x { other.min.x } else { self.min.x },
                y: if other.min.y < self.min.y { other.min.y } else { self.min.y },
            },
            max: Point {
                x: if other.max.x > self.max.x { other.max.x } else { self.max.x },
                y: if other.max.y > self.max.y { other.max.y } else { self.max.y },
            },
        }
    }

    pub fn new(x0: i32, y0: i32, x1: i32, y1: i32) -> (r: Rect)
        ensures
            r == (Rect { min: Point { x: x0, y: y0 }, max: Point { x: x1, y: y1 } }),
    {
        Rect { min: Point { x: x0, y: y0 }, max: Point { x: x1, y: y1 } }
    }

    pub fn width(&self) -> (w: i32)
        requires
            self.wf(),
        ensures
            w == self.spec_width(),
    {
        self.max.x - self.min.x
    }

    pub fn height(&self) -> (h: i32)
        requires
            self.wf(),
        ensures
            h == self.spec_height(),
    {
        self.max.y - self.min.y
    }

    pub fn includes(&self, pt: Point) -> (b: bool)
        ensures
            b == self.spec_includes(pt),
    {
        self.min.x <= pt.x && pt.x < self.max.x && self.min.y <= pt.y && pt.y < self.max.y
    }

    /// Grow `self` to the union of `self` and `other`.
    pub fn absorb(&mut self, other: &Rect)
        ensures
            *final(self) == old(self).spec_union(*other),
    {
        if other.min.x < self.min.x {
            self.min.x = other.min.x;
        }
        if other.min.y < self.min.y {
            self.min.y = other.min.y;
        }
        if other.max.x > self.max.x {
            self.max.x = other.max.x;
        }
        if other.max.y > self.max.y {
            self.max.y = other.max.y;
        }
    }

    /// The rectangle translated by `delta`.
    pub open spec fn spec_translated(self, delta: Point) -> Rect {
        Rect {
            min: Point {
                x: (self.min.x + delta.x) as i32,
                y: (self.min.y + delta.y) as i32,
            },
            max: Point {
                x: (self.max.x + delta.x) as i32,
                y: (self.max.y + delta.y) as i32,
            },
        }
    }

    pub fn translated(&self, delta: Point) -> (r: Rect)
        requires
            self.min.wf(),
            self.max.wf(),
            delta.wf(),
        ensures
            r == self.spec_translated(delta),
    {
        Rect {
            min: Point { x: self.min.x + delta.x, y: self.min.y + delta.y },
            max: Point { x: self.max.x + delta.x, y: self.max.y + delta.y },
        }
    }
}

/// Split a separator thickness into the halves drawn on either side of a
/// band boundary.
pub fn halves(n: i32) -> (r: (i32, i32))
    requires
        0 <= n < COORD_LIMIT,
    ensures
        r.0 == n / 2,
        r.1 == n - n / 2,
        r.0 + r.1 == n,
{
    let small = n / 2;
    (small, n - small)
}

} // verus!
