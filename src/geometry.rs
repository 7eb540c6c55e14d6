use vstd::prelude::*;

verus! {

/// Largest magnitude that a coordinate or an extent of a layout rectangle may have.
pub const COORD_LIMIT: i64 = 1_000_000_000_000;

/// Largest multiplier that a size request may use.
pub const UNITS_LIMIT: i64 = 1000;

/// Largest base interactive unit that a host style may declare.
pub const BASE_LIMIT: i64 = 1_000_000;

/// A point in absolute screen coordinates.
#[derive(Clone, Copy, Debug, PartialEq, Eq, Structural)]
pub struct Pos {
    pub x: i64,
    pub y: i64,
}

/// An axis-aligned rectangle: its top-left corner and its size.
#[derive(Clone, Copy, Debug, PartialEq, Eq, Structural)]
pub struct Rect {
    pub left: i64,
    pub top: i64,
    pub width: i64,
    pub height: i64,
}

impl Rect {
    /// Coordinates and extents are bounded and extents are non-negative.
    pub open spec fn wf(self) -> bool {
        &&& -COORD_LIMIT <= self.left <= COORD_LIMIT
        &&& -COORD_LIMIT <= self.top <= COORD_LIMIT
        &&& 0 <= self.width <= COORD_LIMIT
        &&& 0 <= self.height <= COORD_LIMIT
    }

    pub open spec fn right(self) -> int {
        self.left + self.width
    }

    pub open spec fn bottom(self) -> int {
        self.top + self.height
    }

    /// Inclusive on all four edges.
    pub open spec fn spec_contains(self, p: Pos) -> bool {
        &&& self.left <= p.x <= self.right()
        &&& self.top <= p.y <= self.bottom()
    }

    /// Two rectangles intersect when they overlap or touch.
    pub open spec fn spec_intersects(self, o: Rect) -> bool {
        &&& self.left <= o.right()
        &&& o.left <= self.right()
        &&& self.top <= o.bottom()
        &&& o.top <= self.bottom()
    }

    /// Only a rectangle with area can be interacted with.
    pub open spec fn has_area(self) -> bool {
        self.width > 0 && self.height > 0
    }

    pub fn right_edge(&self) -> (r: i64)
        requires
            self.wf(),
        ensures
            r == self.right(),
    {
        self.left + self.width
    }

    pub fn bottom_edge(&self) -> (r: i64)
        requires
            self.wf(),
        ensures
            r == self.bottom(),
    {
        self.top + self.height
    }

    pub fn contains(&self, p: Pos) -> (r: bool)
        requires
            self.wf(),
        ensures
            r == self.spec_contains(p),
    {
        self.left <= p.x && p.x <= self.right_edge() && self.top <= p.y && p.y <= self.bottom_edge()
    }

    pub fn intersects(&self, o: &Rect) -> (r: bool)
        requires
            self.wf(),
            o.wf(),
        ensures
            r == self.spec_intersects(*o),
    {
        self.left <= o.right_edge() && o.left <= self.right_edge() && self.top <= o.bottom_edge()
            && o.top <= self.bottom_edge()
    }
}

/// Turns a size request, given in multiples of the host's base interactive
/// unit, into a size in screen units (width, height).
pub fn resolve_size(units_w: i64, units_h: i64, base: i64) -> (r: (i64, i64))
    requires
        0 <= units_w <= UNITS_LIMIT,
        0 <= units_h <= UNITS_LIMIT,
        0 <= base <= BASE_LIMIT,
    ensures
        r.0 == units_w * base,
        r.1 == units_h * base,
        0 <= r.0 <= UNITS_LIMIT * BASE_LIMIT,
        0 <= r.1 <= UNITS_LIMIT * BASE_LIMIT,
{
    proof {
        assert(0 <= units_w * base <= UNITS_LIMIT * BASE_LIMIT) by (nonlinear_arith)
            requires
                0 <= units_w <= UNITS_LIMIT,
                0 <= base <= BASE_LIMIT,
        ;
        assert(0 <= units_h * base <= UNITS_LIMIT * BASE_LIMIT) by (nonlinear_arith)
            requires
                0 <= units_h <= UNITS_LIMIT,
                0 <= base <= BASE_LIMIT,
        ;
    }
    (units_w * base, units_h * base)
}

} // verus!
