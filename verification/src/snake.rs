//! The segmented snake body: follow-the-leader advancement (a shift
//! register over the segment sequence), growth behind the tail, the
//! self-overlap check, and the turn filter that rejects direct reversals.

use vstd::prelude::*;
use crate::grid::{GridCoord, Direction, GRID_X, GRID_X_MID, GRID_Y_MID};
use crate::grid::{spec_delta, spec_opposite, opposite};

verus! {

/// Number of segments a fresh snake starts with.
pub const START_LENGTH: u32 = 3;

/// Hard cap on the number of segments, far beyond anything reachable in
/// play; it keeps every cell the body can ever occupy well inside `i32`.
pub const MAX_LENGTH: u32 = 1_000_000;

/// One body piece: the cell it occupies and the heading it had when it
/// last moved, the latter used to place newly grown tail segments.
#[derive(Copy, Clone, PartialEq, Eq, Structural, Debug)]
pub struct Segment {
    pub cell: GridCoord,
    pub direction: Direction,
}

/// The snake: segment 0 is the head; each later segment trails the one
/// ahead of it by one tick. `facing` is the heading committed for the next
/// advance.
#[derive(Debug)]
pub struct Snake {
    pub segments: Vec<Segment>,
    pub length: u32,
    pub facing: Direction,
}

/// Cells a body of `len` segments can ever occupy: the head stays within
/// one step of the play field while the game runs, and each grown segment
/// extends at most one cell past the previous tail.
pub open spec fn cell_in_range(c: GridCoord, len: int) -> bool {
    &&& -len - GRID_X as int <= c.i <= len + GRID_X as int
    &&& -len - GRID_X as int <= c.j <= len + GRID_X as int
}

/// The layout a snake has on entry to play: `START_LENGTH` segments laid
/// downward from the grid center, all heading up.
pub open spec fn spec_initial(s: Snake) -> bool {
    &&& s.facing == Direction::Up
    &&& s.length == START_LENGTH
    &&& s.segments@.len() == START_LENGTH
    &&& forall|k: int|
        0 <= k < START_LENGTH ==> {
            &&& (#[trigger] s.segments@[k]).direction == Direction::Up
            &&& s.segments@[k].cell.i == GRID_X_MID as int
            &&& s.segments@[k].cell.j == GRID_Y_MID as int - k
        }
}

/// The committed heading after one key press: a press opposite to the
/// current facing is rejected and the facing kept.
pub open spec fn spec_resolve(facing: Direction, pressed: Direction) -> Direction {
    if pressed == spec_opposite(facing) {
        facing
    } else {
        pressed
    }
}

/// The committed heading after a frame's presses, applied in order; the
/// last accepted press wins.
pub open spec fn spec_resolve_all(facing: Direction, presses: Seq<Direction>) -> Direction
    decreases presses.len(),
{
    if presses.len() == 0 {
        facing
    } else {
        spec_resolve_all(spec_resolve(facing, presses[0]), presses.skip(1))
    }
}

/// Turn filter for a single press; leaves the facing unchanged exactly
/// when the press would reverse it in place.
pub fn resolve_direction(facing: Direction, pressed: Direction) -> (r: Direction)
    ensures
        r == spec_resolve(facing, pressed),
{
    let opp = opposite(facing);
    if pressed == opp {
        facing
    } else {
        pressed
    }
}

impl Snake {
    /// Structural invariant: the segment count matches `length`, which
    /// stays within its cap, and every occupied cell is in range.
    pub open spec fn wf(self) -> bool {
        &&& self.segments@.len() == self.length
        &&& 1 <= self.length <= MAX_LENGTH
        &&& forall|k: int|
            0 <= k < self.segments@.len() ==> cell_in_range(
                (#[trigger] self.segments@[k]).cell,
                self.length as int,
            )
    }

    /// A fresh snake at the grid center, laid out downward, heading up.
    pub fn new() -> (r: Snake)
        ensures
            r.wf(),
            spec_initial(r),
    {
        let mut segments: Vec<Segment> = Vec::new();
        let mut k: u32 = 0;
        while k < START_LENGTH
            invariant
                0 <= k <= START_LENGTH,
                segments@.len() == k,
                forall|m: int|
                    0 <= m < k ==> {
                        &&& (#[trigger] segments@[m]).direction == Direction::Up
                        &&& segments@[m].cell.i == GRID_X_MID as int
                        &&& segments@[m].cell.j == GRID_Y_MID as int - m
                    },
            decreases START_LENGTH - k,
        {
            segments.push(
                Segment {
                    cell: GridCoord { i: GRID_X_MID, j: GRID_Y_MID - k as i32 },
                    direction: Direction::Up,
                },
            );
            k = k + 1;
        }
        Snake { segments, length: START_LENGTH, facing: Direction::Up }
    }

    /// The cell of segment 0, the logical head cell.
    pub fn head_cell(&self) -> (r: GridCoord)
        requires
            self.segments@.len() > 0,
        ensures
            r == self.segments@[0].cell,
    {
        self.segments[0].cell
    }

    /// One movement step as a pure shift: the head takes one `delta` step
    /// and records the committed facing; every later segment adopts the
    /// pre-update cell and heading of the segment ahead of it.
    pub fn advance(&mut self, delta: GridCoord)
        requires
            old(self).wf(),
            -(old(self).length as int) - GRID_X as int <= old(self).segments@[0].cell.i
                + delta.i <= old(self).length as int + GRID_X as int,
            -(old(self).length as int) - GRID_X as int <= old(self).segments@[0].cell.j
                + delta.j <= old(self).length as int + GRID_X as int,
        ensures
            final(self).wf(),
            final(self).length == old(self).length,
            final(self).facing == old(self).facing,
            final(self).segments@.len() == old(self).segments@.len(),
            final(self).segments@[0].cell.i == old(self).segments@[0].cell.i + delta.i,
            final(self).segments@[0].cell.j == old(self).segments@[0].cell.j + delta.j,
            final(self).segments@[0].direction == old(self).facing,
            forall|k: int|
                1 <= k < old(self).segments@.len() ==> final(self).segments@[k] == old(
                    self,
                ).segments@[k - 1],
    {
        let ghost orig = self.segments@;
        let ghost orig_length = self.length;
        let ghost orig_facing = self.facing;
        let new_head_cell = self.segments[0].cell.add(delta);
        let mut prev = self.segments[0];
        self.segments[0] = Segment { cell: new_head_cell, direction: self.facing };
        let ghost new_head = self.segments@[0];
        let mut k: usize = 1;
        while k < self.segments.len()
            invariant
                1 <= k <= orig.len(),
                self.segments@.len() == orig.len(),
                self.length == orig_length,
                self.facing == orig_facing,
                self.segments@[0] == new_head,
                prev == orig[k - 1],
                forall|m: int| 1 <= m < k ==> self.segments@[m] == orig[m - 1],
                forall|m: int| k <= m < orig.len() ==> self.segments@[m] == orig[m],
            decreases orig.len() - k,
        {
            let tmp = self.segments[k];
            self.segments[k] = prev;
            prev = tmp;
            k = k + 1;
        }
        proof {
            assert forall|m: int|
                0 <= m < self.segments@.len() implies cell_in_range(
                (#[trigger] self.segments@[m]).cell,
                self.length as int,
            ) by {
                if m >= 1 {
                    assert(self.segments@[m] == orig[m - 1]);
                }
            }
        }
    }

    /// Growth after a coin pickup: appends one segment one cell behind the
    /// tail, opposite to the tail's last recorded heading, inheriting that
    /// heading, and counts it in `length`.
    pub fn grow(&mut self)
        requires
            old(self).wf(),
            old(self).length < MAX_LENGTH,
        ensures
            final(self).wf(),
            final(self).length == old(self).length + 1,
            final(self).facing == old(self).facing,
            final(self).segments@.len() == old(self).segments@.len() + 1,
            forall|k: int|
                0 <= k < old(self).segments@.len() ==> final(self).segments@[k] == old(
                    self,
                ).segments@[k],
            final(self).segments@.last().direction == old(self).segments@.last().direction,
            final(self).segments@.last().cell.i == old(self).segments@.last().cell.i
                - spec_delta(old(self).segments@.last().direction).i,
            final(self).segments@.last().cell.j == old(self).segments@.last().cell.j
                - spec_delta(old(self).segments@.last().direction).j,
    {
        let n: usize = self.segments.len();
        let tail = self.segments[n - 1];
        let new_cell = match tail.direction {
            Direction::Up => GridCoord { i: tail.cell.i, j: tail.cell.j - 1 },
            Direction::Down => GridCoord { i: tail.cell.i, j: tail.cell.j + 1 },
            Direction::Left => GridCoord { i: tail.cell.i + 1, j: tail.cell.j },
            Direction::Right => GridCoord { i: tail.cell.i - 1, j: tail.cell.j },
        };
        self.segments.push(Segment { cell: new_cell, direction: tail.direction });
        self.length = self.length + 1;
    }

    /// Whether the head cell coincides with any non-head segment's cell;
    /// such an overlap is fatal.
    pub fn overlaps_self(&self) -> (r: bool)
        requires
            self.segments@.len() > 0,
        ensures
            r == exists|k: int|
                1 <= k < self.segments@.len() && (#[trigger] self.segments@[k]).cell
                    == self.segments@[0].cell,
    {
        let head = self.segments[0].cell;
        let mut k: usize = 1;
        while k < self.segments.len()
            invariant
                1 <= k <= self.segments@.len(),
                head == self.segments@[0].cell,
                forall|m: int|
                    1 <= m < k ==> (#[trigger] self.segments@[m]).cell != self.segments@[0].cell,
            decreases self.segments@.len() - k,
        {
            if self.segments[k].cell == head {
                return true;
            }
            k = k + 1;
        }
        false
    }

    /// Applies a frame's directional presses to the committed facing, in
    /// order, each filtered against reversal; the body is untouched.
    pub fn apply_presses(&mut self, presses: &Vec<Direction>)
        ensures
            final(self).segments@ == old(self).segments@,
            final(self).length == old(self).length,
            final(self).facing == spec_resolve_all(old(self).facing, presses@),
    {
        let ghost orig_segments = self.segments@;
        let ghost orig_length = self.length;
        let ghost orig_facing = self.facing;
        let mut k: usize = 0;
        proof {
            assert(presses@.skip(0) =~= presses@);
        }
        while k < presses.len()
            invariant
                0 <= k <= presses@.len(),
                self.segments@ == orig_segments,
                self.length == orig_length,
                spec_resolve_all(orig_facing, presses@) == spec_resolve_all(
                    self.facing,
                    presses@.skip(k as int),
                ),
            decreases presses@.len() - k,
        {
            let p = presses[k];
            proof {
                assert(presses@.skip(k as int).skip(1) =~= presses@.skip(k as int + 1));
                assert(presses@.skip(k as int)[0] == presses@[k as int]);
            }
            self.facing = resolve_direction(self.facing, p);
            k = k + 1;
        }
    }
}

} // verus!
