//! Integer lattice coordinates of the play field, the four movement
//! directions with their unit deltas, and the bounds check.

use vstd::prelude::*;

verus! {

/// Number of cells along the horizontal axis of the play field.
pub const GRID_X: i32 = 60;
/// Number of cells along the vertical axis of the play field.
pub const GRID_Y: i32 = 35;
/// Horizontal coordinate of the grid center, where the snake starts.
pub const GRID_X_MID: i32 = 30;
/// Vertical coordinate of the grid center, where the snake starts.
pub const GRID_Y_MID: i32 = 17;

/// One cell of the integer lattice; `i` grows rightward, `j` grows upward.
/// A value type: every operation builds a new value.
#[derive(Copy, Clone, PartialEq, Eq, Structural, Debug)]
pub struct GridCoord {
    pub i: i32,
    pub j: i32,
}

/// The four headings a snake segment can move in.
#[derive(Copy, Clone, PartialEq, Eq, Structural, Debug)]
pub enum Direction {
    Up,
    Down,
    Left,
    Right,
}

impl Default for GridCoord {
    /// The grid center.
    fn default() -> (r: Self)
        ensures
            r.i == GRID_X_MID,
            r.j == GRID_Y_MID,
    {
        GridCoord { i: GRID_X_MID, j: GRID_Y_MID }
    }
}

impl Default for Direction {
    fn default() -> (r: Self)
        ensures
            r == Direction::Up,
    {
        Direction::Up
    }
}

/// The unit offset a head moves by in one tick when heading `d`.
pub open spec fn spec_delta(d: Direction) -> GridCoord {
    match d {
        Direction::Up => GridCoord { i: 0, j: 1 },
        Direction::Down => GridCoord { i: 0, j: -1i32 },
        Direction::Left => GridCoord { i: -1i32, j: 0 },
        Direction::Right => GridCoord { i: 1, j: 0 },
    }
}

/// The heading that exactly reverses `d`.
pub open spec fn spec_opposite(d: Direction) -> Direction {
    match d {
        Direction::Up => Direction::Down,
        Direction::Down => Direction::Up,
        Direction::Left => Direction::Right,
        Direction::Right => Direction::Left,
    }
}

/// Fixed lookup table from heading to unit cell offset.
pub fn delta(d: Direction) -> (r: GridCoord)
    ensures
        r == spec_delta(d),
{
    match d {
        Direction::Up => GridCoord { i: 0, j: 1 },
        Direction::Down => GridCoord { i: 0, j: -1i32 },
        Direction::Left => GridCoord { i: -1i32, j: 0 },
        Direction::Right => GridCoord { i: 1, j: 0 },
    }
}

/// The heading that exactly reverses `d`.
pub fn opposite(d: Direction) -> (r: Direction)
    ensures
        r == spec_opposite(d),
{
    match d {
        Direction::Up => Direction::Down,
        Direction::Down => Direction::Up,
        Direction::Left => Direction::Right,
        Direction::Right => Direction::Left,
    }
}

/// Every delta is a unit step along exactly one axis, and the deltas of a
/// heading and its opposite are additive inverses.
pub proof fn lemma_delta_unit(d: Direction)
    ensures
        (spec_delta(d).i == 0) != (spec_delta(d).j == 0),
        spec_delta(d).i == 0 ==> spec_delta(d).j == 1 || spec_delta(d).j == -1,
        spec_delta(d).j == 0 ==> spec_delta(d).i == 1 || spec_delta(d).i == -1,
        spec_delta(spec_opposite(d)).i == -spec_delta(d).i,
        spec_delta(spec_opposite(d)).j == -spec_delta(d).j,
{
}

impl GridCoord {
    /// Component-wise sum; serves both movement and bounds checking.
    pub fn add(self, other: GridCoord) -> (r: GridCoord)
        requires
            i32::MIN <= self.i + other.i <= i32::MAX,
            i32::MIN <= self.j + other.j <= i32::MAX,
        ensures
            r.i == self.i + other.i,
            r.j == self.j + other.j,
    {
        GridCoord { i: self.i + other.i, j: self.j + other.j }
    }
}

/// Whether `c` lies inside the play field `[0, GRID_X) x [0, GRID_Y)`.
pub open spec fn spec_in_bounds(c: GridCoord) -> bool {
    0 <= c.i < GRID_X as int && 0 <= c.j < GRID_Y as int
}

/// Bounds check for the head cell; leaving the play field ends the game.
pub fn in_bounds(c: GridCoord) -> (r: bool)
    ensures
        r == spec_in_bounds(c),
{
    0 <= c.i && c.i < GRID_X && 0 <= c.j && c.j < GRID_Y
}

} // verus!
