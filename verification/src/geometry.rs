//! Integer-grid geometry: the `Coords` point type, component-wise addition,
//! the fixed board dimensions, and the bounds predicate.

use vstd::prelude::*;

verus! {

/// Side length of one grid cell, in logical canvas units.
pub const CELL_SIZE: i32 = 20;

/// Side length of the square canvas, in logical units.
pub const CANVAS_SIZE: i32 = 500;

/// Number of grid cells along each axis of the canvas.
pub const GRID_CELLS: i32 = 25;

/// Lowest coordinate (on either axis) inside the play area.
pub const BOARD_MIN: i32 = 20;

/// Highest coordinate (on either axis) inside the play area.
pub const BOARD_MAX: i32 = 460;

/// A point on the integer grid. All coordinates the engine produces are
/// multiples of `CELL_SIZE`; equality is exact equality on both axes.
#[derive(PartialEq, Eq, Structural, Clone, Copy, Debug)]
pub struct Coords {
    pub x: i32,
    pub y: i32,
}

/// Builds a point from its two coordinates.
pub fn coords(x: i32, y: i32) -> (c: Coords)
    ensures
        c == (Coords { x, y }),
{
    Coords { x, y }
}

/// True when `p` lies inside the inclusive play bounds on both axes.
pub open spec fn in_bounds(p: Coords) -> bool {
    BOARD_MIN <= p.x <= BOARD_MAX && BOARD_MIN <= p.y <= BOARD_MAX
}

/// True when both coordinates of `p` are multiples of the cell size.
pub open spec fn is_aligned(p: Coords) -> bool {
    p.x % CELL_SIZE == 0 && p.y % CELL_SIZE == 0
}

impl Coords {
    /// Component-wise sum, as the snake's head displacement uses it.
    pub fn add(&self, other: &Coords) -> (r: Coords)
        requires
            i32::MIN <= self.x + other.x <= i32::MAX,
            i32::MIN <= self.y + other.y <= i32::MAX,
        ensures
            r.x == self.x + other.x,
            r.y == self.y + other.y,
    {
        Coords { x: self.x + other.x, y: self.y + other.y }
    }

    /// Builds the grid point of cell `(cx, cy)`, counting cells from the
    /// canvas origin. The caller draws the cell indices; this function
    /// performs the quantization to canvas units.
    pub fn from_cells(cx: i32, cy: i32) -> (r: Coords)
        requires
            0 <= cx < GRID_CELLS,
            0 <= cy < GRID_CELLS,
        ensures
            r.x == cx * CELL_SIZE,
            r.y == cy * CELL_SIZE,
            is_aligned(r),
    {
        let r = Coords { x: cx * CELL_SIZE, y: cy * CELL_SIZE };
        proof {
            assert(r.x % CELL_SIZE == 0) by (nonlinear_arith)
                requires
                    r.x == cx * CELL_SIZE,
                    CELL_SIZE == 20,
            ;
            assert(r.y % CELL_SIZE == 0) by (nonlinear_arith)
                requires
                    r.y == cy * CELL_SIZE,
                    CELL_SIZE == 20,
            ;
        }
        r
    }

    /// True when `self` lies inside the inclusive play bounds.
    pub fn within_bounds(&self) -> (r: bool)
        ensures
            r == in_bounds(*self),
    {
        self.x >= BOARD_MIN && self.x <= BOARD_MAX && self.y >= BOARD_MIN && self.y <= BOARD_MAX
    }
}

/// The positions of the background grid lines: every cell boundary strictly
/// inside the canvas, in ascending order.
pub fn grid_lines() -> (v: Vec<i32>)
    ensures
        v@.len() == GRID_CELLS - 1,
        forall|i: int| 0 <= i < v@.len() ==> #[trigger] v@[i] == CELL_SIZE * (i + 1),
{
    let mut v: Vec<i32> = Vec::new();
    let mut k: i32 = 1;
    while k < GRID_CELLS
        invariant
            1 <= k <= GRID_CELLS,
            v@.len() == k - 1,
            forall|i: int| 0 <= i < v@.len() ==> #[trigger] v@[i] == CELL_SIZE * (i + 1),
        decreases GRID_CELLS - k,
    {
        v.push(k * CELL_SIZE);
        k += 1;
    }
    v
}

} // verus!
