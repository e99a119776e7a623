//! Axis-aligned integer rectangles with inclusive `min` and exclusive `max`
//! corners. All layout math of the crate is done on these.

use vstd::prelude::*;

verus! {

/// Coordinates are kept well inside the `i64` range so that a translation or
/// an extent never overflows. Layout code maintains this bound at every step.
pub const COORD_LIMIT: i64 = 0x2000_0000_0000_0000;

pub open spec fn coord_ok(c: int) -> bool {
    -COORD_LIMIT <= c <= COORD_LIMIT
}

/// An axis-aligned rectangle; `min` corner is inclusive, `max` is exclusive.
/// Callers must not assume non-negative extents: `is_empty` reports whether
/// `max` exceeds `min` on both axes, and `extent` saturates at zero.
#[derive(Clone, Copy, Debug, PartialEq, Eq, Structural)]
pub struct Rect {
    pub min_x: i64,
    pub min_y: i64,
    pub max_x: i64,
    pub max_y: i64,
}

impl Rect {
    /// All four coordinates are within the working range.
    pub open spec fn ok(self) -> bool {
        coord_ok(self.min_x as int) && coord_ok(self.min_y as int)
            && coord_ok(self.max_x as int) && coord_ok(self.max_y as int)
    }

    pub open spec fn spec_width(self) -> int {
        if self.max_x > self.min_x {
            self.max_x - self.min_x
        } else {
            0
        }
    }

    pub open spec fn spec_height(self) -> int {
        if self.max_y > self.min_y {
            self.max_y - self.min_y
        } else {
            0
        }
    }

    pub open spec fn spec_is_empty(self) -> bool {
        self.max_x <= self.min_x || self.max_y <= self.min_y
    }

    pub open spec fn spec_intersect(self, rhs: Rect) -> Rect {
        Rect {
            min_x: if self.min_x >= rhs.min_x { self.min_x } else { rhs.min_x },
            min_y: if self.min_y >= rhs.min_y { self.min_y } else { rhs.min_y },
            max_x: if self.max_x <= rhs.max_x { self.max_x } else { rhs.max_x },
            max_y: if self.max_y <= rhs.max_y { self.max_y } else { rhs.max_y },
        }
    }

    pub open spec fn spec_translated(self, dx: int, dy: int) -> Rect {
        Rect {
            min_x: (self.min_x + dx) as i64,
            min_y: (self.min_y + dy) as i64,
            max_x: (self.max_x + dx) as i64,
            max_y: (self.max_y + dy) as i64,
        }
    }

    /// Clamps every coordinate to be non-negative.
    pub open spec fn spec_clip(self) -> Rect {
        Rect {
            min_x: if self.min_x >= 0 { self.min_x } else { 0 },
            min_y: if self.min_y >= 0 { self.min_y } else { 0 },
            max_x: if self.max_x >= 0 { self.max_x } else { 0 },
            max_y: if self.max_y >= 0 { self.max_y } else { 0 },
        }
    }

    pub open spec fn spec_contains(self, x: int, y: int) -> bool {
        self.min_x <= x < self.max_x && self.min_y <= y < self.max_y
    }

    pub fn from_minmax(min_x: i64, min_y: i64, max_x: i64, max_y: i64) -> (r: Rect)
        ensures
            r == (Rect { min_x, min_y, max_x, max_y }),
    {
        Rect { min_x, min_y, max_x, max_y }
    }

    pub fn from_extent(x: i64, y: i64, w: i64, h: i64) -> (r: Rect)
        requires
            coord_ok(x as int) && coord_ok(y as int),
            coord_ok(x + w) && coord_ok(y + h),
        ensures
            r.min_x == x && r.min_y == y,
            r.max_x == x + w && r.max_y == y + h,
    {
        Rect { min_x: x, min_y: y, max_x: x + w, max_y: y + h }
    }

    pub fn min_x(&self) -> (r: i64)
        ensures
            r == self.min_x,
    {
        self.min_x
    }

    pub fn min_y(&self) -> (r: i64)
        ensures
            r == self.min_y,
    {
        self.min_y
    }

    pub fn max_x(&self) -> (r: i64)
        ensures
            r == self.max_x,
    {
        self.max_x
    }

    pub fn max_y(&self) -> (r: i64)
        ensures
            r == self.max_y,
    {
        self.max_y
    }

    /// Width of the rectangle, saturated at zero.
    pub fn width(&self) -> (r: i64)
        requires
            self.ok(),
        ensures
            r == self.spec_width(),
    {
        if self.max_x > self.min_x {
            self.max_x - self.min_x
        } else {
            0
        }
    }

    /// Height of the rectangle, saturated at zero.
    pub fn height(&self) -> (r: i64)
        requires
            self.ok(),
        ensures
            r == self.spec_height(),
    {
        if self.max_y > self.min_y {
            self.max_y - self.min_y
        } else {
            0
        }
    }

    /// True iff the rectangle covers no cell.
    pub fn is_empty(&self) -> (r: bool)
        ensures
            r == self.spec_is_empty(),
    {
        self.max_x <= self.min_x || self.max_y <= self.min_y
    }

    /// Sum of the saturated extents (saturating at `i64::MAX`); zero exactly
    /// when the rectangle covers no cell.
    pub fn area(&self) -> (r: i64)
        requires
            self.ok(),
        ensures
            r == if self.spec_width() + self.spec_height() <= i64::MAX {
                self.spec_width() + self.spec_height()
            } else {
                i64::MAX as int
            },
            (r == 0) == (self.spec_width() == 0 && self.spec_height() == 0),
    {
        let w = self.width();
        let h = self.height();
        if h <= i64::MAX - w {
            w + h
        } else {
            i64::MAX
        }
    }

    /// Component-wise intersection: the largest rectangle inside both.
    pub fn intersect(&self, rhs: &Rect) -> (r: Rect)
        ensures
            r == self.spec_intersect(*rhs),
    {
        Rect {
            min_x: if self.min_x >= rhs.min_x { self.min_x } else { rhs.min_x },
            min_y: if self.min_y >= rhs.min_y { self.min_y } else { rhs.min_y },
            max_x: if self.max_x <= rhs.max_x { self.max_x } else { rhs.max_x },
            max_y: if self.max_y <= rhs.max_y { self.max_y } else { rhs.max_y },
        }
    }

    /// Moves the rectangle by `(dx, dy)`.
    pub fn translated(&self, dx: i64, dy: i64) -> (r: Rect)
        requires
            self.ok(),
            coord_ok(dx as int) && coord_ok(dy as int),
        ensures
            r == self.spec_translated(dx as int, dy as int),
            r.min_x == self.min_x + dx && r.min_y == self.min_y + dy,
            r.max_x == self.max_x + dx && r.max_y == self.max_y + dy,
    {
        Rect {
            min_x: self.min_x + dx,
            min_y: self.min_y + dy,
            max_x: self.max_x + dx,
            max_y: self.max_y + dy,
        }
    }

    /// Clamps the rectangle to the non-negative quadrant. The result never has
    /// a negative coordinate.
    pub fn clip(&self) -> (r: Rect)
        ensures
            r == self.spec_clip(),
            r.min_x >= 0 && r.min_y >= 0 && r.max_x >= 0 && r.max_y >= 0,
    {
        Rect {
            min_x: if self.min_x >= 0 { self.min_x } else { 0 },
            min_y: if self.min_y >= 0 { self.min_y } else { 0 },
            max_x: if self.max_x >= 0 { self.max_x } else { 0 },
            max_y: if self.max_y >= 0 { self.max_y } else { 0 },
        }
    }

    /// Point membership, with the exclusive-max convention.
    pub fn contains(&self, x: i64, y: i64) -> (r: bool)
        ensures
            r == self.spec_contains(x as int, y as int),
    {
        x >= self.min_x && x < self.max_x && y >= self.min_y && y < self.max_y
    }
}

/// Intersecting any rectangle with an empty rectangle yields an empty
/// rectangle.
pub proof fn lemma_intersect_with_empty(a: Rect, b: Rect)
    requires
        b.spec_is_empty(),
    ensures
        a.spec_intersect(b).spec_is_empty(),
{
}

/// Clamping commutes with nothing surprising: a clipped rectangle contains a
/// point iff the original does and the point is in the non-negative quadrant.
pub proof fn lemma_clip_contains(a: Rect, x: int, y: int)
    ensures
        a.spec_clip().spec_contains(x, y) <==> (a.spec_contains(x, y) && x >= 0 && y >= 0),
{
}

} // verus!
