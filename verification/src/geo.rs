//! Coordinates and the bounds of the playing field.

use vstd::prelude::*;

verus! {

/// A cell of the playing field, as `(x, y)`.
pub type Point = (u16, u16);

/// The bounds of the playing field.
///
/// The edge indices themselves belong to the field: a grid of width `w` and
/// height `h` has the cells `(0, 0)` to `(w, h)`, both included.
#[derive(Copy, Clone, Eq, PartialEq, Debug, Structural)]
pub struct Grid {
    pub width: u16,
    pub height: u16,
}

impl Grid {
    /// Both dimensions are positive. A random cell can only be drawn from
    /// such a grid.
    pub open spec fn wf(self) -> bool {
        self.width > 0 && self.height > 0
    }

    /// The cell `(x, y)`, given as mathematical integers, lies on the field.
    pub open spec fn holds(self, x: int, y: int) -> bool {
        0 <= x <= self.width && 0 <= y <= self.height
    }

    /// `point` lies on the field.
    pub open spec fn spec_in_bounds(self, point: Point) -> bool {
        self.holds(point.0 as int, point.1 as int)
    }

    /// Every cell of `cells` lies on the field.
    pub open spec fn holds_all(self, cells: Seq<Point>) -> bool {
        forall|i: int| 0 <= i < cells.len() ==> self.spec_in_bounds(#[trigger] cells[i])
    }

    /// `point` may come out of a random draw on this grid: the draw never
    /// yields the last column or the last row.
    pub open spec fn may_draw(self, point: Point) -> bool {
        point.0 < self.width && point.1 < self.height
    }

    /// Tells whether `point` lies on the field, edges included.
    pub fn in_bounds(&self, point: Point) -> (inside: bool)
        ensures
            inside == self.spec_in_bounds(point),
    {
        let (x, y) = point;
        let in_x = x <= self.width;
        let in_y = y <= self.height;

        in_x && in_y
    }
}

/// A cell that a random draw may yield lies on the field.
pub proof fn lemma_drawn_point_in_bounds(grid: Grid, point: Point)
    requires
        grid.may_draw(point),
    ensures
        grid.spec_in_bounds(point),
{
}

} // verus!
