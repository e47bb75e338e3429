//! Rectangles of terminal cells.

use vstd::prelude::*;

verus! {

/// A rectangle of terminal cells: the position of its upper left corner and
/// its extent, all counted in cells.
#[derive(Copy, Clone, Debug, PartialEq, Eq, Structural)]
pub struct Area {
    pub x: u16,
    pub y: u16,
    pub width: u16,
    pub height: u16,
}

impl Area {
    /// The column just right of the rectangle; it stops at the last column
    /// that a coordinate can name.
    pub open spec fn right(self) -> int {
        if self.x + self.width > u16::MAX {
            u16::MAX as int
        } else {
            self.x + self.width
        }
    }

    /// The row just below the rectangle; it stops at the last row that a
    /// coordinate can name.
    pub open spec fn bottom(self) -> int {
        if self.y + self.height > u16::MAX {
            u16::MAX as int
        } else {
            self.y + self.height
        }
    }

    /// Whether the cell in column `x` and row `y` lies in the rectangle.
    pub open spec fn contains(self, x: int, y: int) -> bool {
        self.x <= x < self.right() && self.y <= y < self.bottom()
    }

    /// A rectangle from its corner and its extent.
    pub fn new(x: u16, y: u16, width: u16, height: u16) -> (area: Self)
        ensures
            area == (Area { x, y, width, height }),
    {
        Area { x, y, width, height }
    }

    /// The leftmost column.
    pub fn left(self) -> (x: u16)
        ensures
            x == self.x,
    {
        self.x
    }

    /// The topmost row.
    pub fn top(self) -> (y: u16)
        ensures
            y == self.y,
    {
        self.y
    }
}

} // verus!
