//! The page's pixel geometry, as plain integers.
//!
//! The drawing-page collaborator reports a page as a width, a height and
//! four borders, all in whole pixels. This module holds the library's own
//! copy of those values and derives the three anchor points and the usable
//! display dimensions exactly as the collaborator defines them.

use vstd::prelude::*;

verus! {

/// A 2D pixel coordinate on the page.
#[derive(Clone, Copy, Debug, PartialEq, Eq, Structural)]
pub struct PagePoint {
    pub x: i32,
    pub y: i32,
}

/// A page's size and borders in whole pixels.
#[derive(Clone, Copy, Debug, PartialEq, Eq, Structural)]
pub struct PageGeometry {
    /// Full page width in pixels.
    pub width: i32,
    /// Full page height in pixels.
    pub height: i32,
    /// Top border in pixels.
    pub top: i32,
    /// Bottom border in pixels.
    pub bottom: i32,
    /// Left border in pixels.
    pub left: i32,
    /// Right border in pixels.
    pub right: i32,
}

impl PageGeometry {
    /// A sane page: borders are non-negative and fit inside the page.
    pub open spec fn wf(self) -> bool {
        &&& 0 <= self.top
        &&& 0 <= self.bottom
        &&& 0 <= self.left
        &&& 0 <= self.right
        &&& self.left + self.right <= self.width
        &&& self.top + self.bottom <= self.height
    }

    /// Usable width: the page width minus the side borders.
    pub open spec fn spec_display_width(self) -> int {
        self.width - self.right - self.left
    }

    /// Usable height: the page height minus the top and bottom borders.
    pub open spec fn spec_display_height(self) -> int {
        self.height - self.top - self.bottom
    }

    /// Horizontal middle of the usable area.
    pub open spec fn spec_center_x(self) -> int {
        self.left + (self.width - self.right - self.left) / 2
    }

    /// Vertical middle of the usable area.
    pub open spec fn spec_center_y(self) -> int {
        self.top + (self.height - self.top - self.bottom) / 2
    }

    /// Width of the page minus the borders, in pixels.
    pub fn display_width_px(&self) -> (w: i32)
        requires
            self.wf(),
        ensures
            w as int == self.spec_display_width(),
            0 <= w,
    {
        self.width - self.right - self.left
    }

    /// Height of the page minus the borders, in pixels.
    pub fn display_height_px(&self) -> (h: i32)
        requires
            self.wf(),
        ensures
            h as int == self.spec_display_height(),
            0 <= h,
    {
        self.height - self.top - self.bottom
    }

    /// Center point of the usable area.
    pub fn center(&self) -> (p: PagePoint)
        requires
            self.wf(),
        ensures
            p.x as int == self.spec_center_x(),
            p.y as int == self.spec_center_y(),
    {
        PagePoint {
            x: self.left + (self.width - self.right - self.left) / 2,
            y: self.top + (self.height - self.top - self.bottom) / 2,
        }
    }

    /// Point on the left border, vertically in the middle of the usable area.
    pub fn center_left(&self) -> (p: PagePoint)
        requires
            self.wf(),
        ensures
            p.x as int == self.left as int,
            p.y as int == self.spec_center_y(),
    {
        PagePoint {
            x: self.left,
            y: self.top + (self.height - self.top - self.bottom) / 2,
        }
    }

    /// Top-left corner of the usable area.
    pub fn top_left(&self) -> (p: PagePoint)
        requires
            self.wf(),
        ensures
            p.x as int == self.left as int,
            p.y as int == self.top as int,
    {
        PagePoint { x: self.left, y: self.top }
    }

    /// Executable well-formedness test, so that callers outside the library
    /// can establish `wf` before asking for a plan.
    pub fn is_wf(&self) -> (b: bool)
        ensures
            b == self.wf(),
    {
        0 <= self.top && 0 <= self.bottom && 0 <= self.left && 0 <= self.right
            && (self.left as i64) + (self.right as i64) <= self.width as i64
            && (self.top as i64) + (self.bottom as i64) <= self.height as i64
    }
}

} // verus!
