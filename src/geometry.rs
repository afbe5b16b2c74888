use vstd::prelude::*;

verus! {

/// Display resolution in pixels along each side.
pub const RESOLUTION: u8 = 160;

/// Size in pixels of one grid cell.
pub const SPRITE_SIZE: u8 = 8;

/// Number of cells along each side of the square grid.
pub const SIDE: i8 = (RESOLUTION / SPRITE_SIZE) as i8;

/// Number of cells of the grid (`SIDE * SIDE`), which is also the snake's capacity.
pub const CAPACITY: usize = 400;

/// A cell address on the grid, or the sentinel `(-1, -1)` for "no cell".
#[derive(Clone, Copy, PartialEq, Eq, Structural, Debug)]
pub struct Point {
    pub x: i8,
    pub y: i8,
}

/// The reserved out-of-grid value marking an unused slot.
pub open spec fn sentinel() -> Point {
    Point { x: -1i8, y: -1i8 }
}

/// Whether `p` addresses a cell of the grid.
pub open spec fn in_grid(p: Point) -> bool {
    0 <= p.x < SIDE && 0 <= p.y < SIDE
}

/// Whether `d` is a unit, axis-aligned direction vector.
pub open spec fn is_unit_direction(d: Point) -> bool {
    (d.x == 0 && (d.y == 1 || d.y == -1)) || (d.y == 0 && (d.x == 1 || d.x == -1))
}

/// One coordinate moved against the displacement `d`, wrapped around the grid.
pub open spec fn wrap_coord(c: i8, d: i8) -> i8 {
    ((c - d) % (SIDE as int)) as i8
}

/// The cell reached from `p` by one step: the direction vector is subtracted, then wrapped.
pub open spec fn step(p: Point, d: Point) -> Point {
    Point { x: wrap_coord(p.x, d.x), y: wrap_coord(p.y, d.y) }
}

/// The cell with row-major index `k`.
pub open spec fn cell(k: int) -> Point {
    Point { x: (k % (SIDE as int)) as i8, y: (k / (SIDE as int)) as i8 }
}

impl Point {
    pub fn new(x: i8, y: i8) -> (r: Point)
        ensures
            r == (Point { x, y }),
    {
        Point { x, y }
    }

    /// Whether both coordinates match.
    pub fn equals(&self, other: Point) -> (r: bool)
        ensures
            r == (*self == other),
    {
        self.x == other.x && self.y == other.y
    }
}

/// Moves one coordinate against `d` and wraps it into `0 .. SIDE`.
pub fn wrap_step(c: i8, d: i8) -> (r: i8)
    requires
        0 <= c < SIDE,
        -1 <= d <= 1,
    ensures
        r == wrap_coord(c, d),
        0 <= r < SIDE,
{
    let max: i8 = SIDE - 1;
    let v: i8 = c - d;
    if v < 0 {
        max
    } else if v > max {
        0
    } else {
        v
    }
}

/// Number of cells of the grid, the snake's capacity.
pub fn get_max_points() -> (r: u32)
    ensures
        r == CAPACITY,
        r == SIDE * SIDE,
{
    CAPACITY as u32
}

} // verus!
