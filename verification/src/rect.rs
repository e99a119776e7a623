//! Alignment of one rectangle within another, and padding removal: the
//! small positioning helpers the widgets use when placing their content.

use vstd::prelude::*;

use crate::geometry::Rect;

verus! {

/// Alignment along one axis.
#[derive(Clone, Copy, Debug, Default, PartialEq, Eq, Structural)]
pub enum LineAlignment {
    #[default]
    Start,
    Center,
    End,
}

/// Alignment in both axes.
#[derive(Clone, Copy, Debug, PartialEq, Eq, Structural)]
pub struct PlaneAlignment {
    pub x: LineAlignment,
    pub y: LineAlignment,
}

impl PlaneAlignment {
    /// Horizontal alignment only; the vertical axis keeps the default.
    pub fn horizontal(horizontal_alignment: LineAlignment) -> (r: PlaneAlignment)
        ensures
            r.x == horizontal_alignment,
            r.y == LineAlignment::Start,
    {
        PlaneAlignment { x: horizontal_alignment, y: LineAlignment::Start }
    }

    /// Vertical alignment only; the horizontal axis keeps the default.
    pub fn vertical(vertical_alignment: LineAlignment) -> (r: PlaneAlignment)
        ensures
            r.x == LineAlignment::Start,
            r.y == vertical_alignment,
    {
        PlaneAlignment { x: LineAlignment::Start, y: vertical_alignment }
    }
}

/// Cell padding toward the four sides.
#[derive(Clone, Copy, Debug, PartialEq, Eq, Structural)]
pub struct Padding {
    pub left: u16,
    pub right: u16,
    pub top: u16,
    pub bottom: u16,
}

/// The aligned start position along one axis: the free room (if any) is
/// kept before, split around, or entirely before the aligned extent.
pub open spec fn spec_aligned_start(min: int, outer: int, inner: int, a: LineAlignment) -> int {
    let room = if outer >= inner {
        outer - inner
    } else {
        0
    };
    match a {
        LineAlignment::Start => min,
        LineAlignment::Center => min + room / 2,
        LineAlignment::End => min + room,
    }
}

/// Rectangle positioning helpers.
pub trait RectExt where Self: core::marker::Sized {
    /// What the helpers need of the rectangle.
    spec fn alignable(&self) -> bool;

    /// Shrinks the rectangle by the given padding, saturating at an empty
    /// extent.
    fn without_padding(self, padding: Padding) -> Self
        requires
            self.alignable(),
    ;

    /// Positions a `width x height` rectangle within this one according to
    /// the alignment; the result never exceeds this rectangle's extents.
    fn align(self, width: u16, height: u16, alignment: PlaneAlignment) -> Self
        requires
            self.alignable(),
    ;
}

impl Rect {
    /// Shrinks the rectangle by the given padding, saturating at an empty
    /// extent.
    pub fn rect_without_padding(self, padding: Padding) -> (r: Rect)
        requires
            self.ok(),
        ensures
            r.min_x == self.min_x + padding.left,
            r.min_y == self.min_y + padding.top,
            r.spec_width() == if self.spec_width() >= padding.left + padding.right {
                self.spec_width() - padding.left - padding.right
            } else {
                0
            },
            r.spec_height() == if self.spec_height() >= padding.top + padding.bottom {
                self.spec_height() - padding.top - padding.bottom
            } else {
                0
            },
    {
        let w = self.width();
        let h = self.height();
        let lr = (padding.left as i64) + (padding.right as i64);
        let tb = (padding.top as i64) + (padding.bottom as i64);
        let new_w = if w >= lr {
            w - lr
        } else {
            0
        };
        let new_h = if h >= tb {
            h - tb
        } else {
            0
        };
        Rect {
            min_x: self.min_x + padding.left as i64,
            min_y: self.min_y + padding.top as i64,
            max_x: self.min_x + padding.left as i64 + new_w,
            max_y: self.min_y + padding.top as i64 + new_h,
        }
    }

    /// Positions a `width x height` rectangle within this one according to
    /// the alignment; the result never exceeds this rectangle's extents.
    pub fn rect_align(self, width: u16, height: u16, alignment: PlaneAlignment) -> (r: Rect)
        requires
            self.ok(),
        ensures
            r.min_x == spec_aligned_start(
                self.min_x as int,
                self.spec_width(),
                width as int,
                alignment.x,
            ),
            r.min_y == spec_aligned_start(
                self.min_y as int,
                self.spec_height(),
                height as int,
                alignment.y,
            ),
            r.spec_width() == if self.spec_width() <= width {
                self.spec_width()
            } else {
                width as int
            },
            r.spec_height() == if self.spec_height() <= height {
                self.spec_height()
            } else {
                height as int
            },
    {
        let w = self.width();
        let h = self.height();
        let room_x = if w >= width as i64 {
            w - width as i64
        } else {
            0
        };
        let room_y = if h >= height as i64 {
            h - height as i64
        } else {
            0
        };
        let min_x = match alignment.x {
            LineAlignment::Start => self.min_x,
            LineAlignment::Center => self.min_x + room_x / 2,
            LineAlignment::End => self.min_x + room_x,
        };
        let min_y = match alignment.y {
            LineAlignment::Start => self.min_y,
            LineAlignment::Center => self.min_y + room_y / 2,
            LineAlignment::End => self.min_y + room_y,
        };
        let out_w = if w <= width as i64 {
            w
        } else {
            width as i64
        };
        let out_h = if h <= height as i64 {
            h
        } else {
            height as i64
        };
        proof {
            let wi = w as int;
            vstd::arithmetic::div_mod::lemma_div_is_ordered(0, room_x as int, 2);
            vstd::arithmetic::div_mod::lemma_div_is_ordered(0, room_y as int, 2);
            assert(room_x as int / 2 <= room_x) by {
                vstd::arithmetic::div_mod::lemma_fundamental_div_mod(room_x as int, 2);
                vstd::arithmetic::div_mod::lemma_mod_bound(room_x as int, 2);
            }
            assert(room_y as int / 2 <= room_y) by {
                vstd::arithmetic::div_mod::lemma_fundamental_div_mod(room_y as int, 2);
                vstd::arithmetic::div_mod::lemma_mod_bound(room_y as int, 2);
            }
        }
        Rect { min_x, min_y, max_x: min_x + out_w, max_y: min_y + out_h }
    }
}

impl RectExt for Rect {
    open spec fn alignable(&self) -> bool {
        self.ok()
    }

    fn without_padding(self, padding: Padding) -> Self {
        Rect::rect_without_padding(self, padding)
    }

    fn align(self, width: u16, height: u16, alignment: PlaneAlignment) -> Self {
        Rect::rect_align(self, width, height, alignment)
    }
}

} // verus!
