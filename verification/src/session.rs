//! The game session: the Playing/GameOver state machine, the per-tick
//! advance with its three collision checks (coin pickup, bounds,
//! self-overlap), and the per-frame step that ties input, timer and
//! movement together.

use vstd::prelude::*;
use crate::grid::{GridCoord, Direction, GRID_X, GRID_Y, GRID_X_MID, GRID_Y_MID};
use crate::grid::{spec_delta, spec_in_bounds, delta, in_bounds};
use crate::snake::{Snake, Segment, START_LENGTH, MAX_LENGTH};
use crate::snake::{spec_initial, spec_resolve_all};
use crate::timer::{MoveTimer, TICK_MICROS};
use crate::rng::random_cell;

verus! {

/// The two states of a session. There is no pause state.
#[derive(Copy, Clone, PartialEq, Eq, Structural, Debug)]
pub enum Phase {
    Playing,
    GameOver,
}

/// The collectible. A session owns exactly one coin at any time, so a
/// pickup that replaces it always leaves exactly one in play.
#[derive(Copy, Clone, PartialEq, Eq, Structural, Debug)]
pub struct Coin {
    pub cell: GridCoord,
}

/// The whole game state threaded through the simulation loop.
pub struct Session {
    pub snake: Snake,
    pub coin: Coin,
    pub phase: Phase,
    pub timer: MoveTimer,
}

/// Horizontal coordinate the head will occupy after the next advance.
pub open spec fn next_head_i(segs: Seq<Segment>, facing: Direction) -> int {
    segs[0].cell.i + spec_delta(facing).i
}

/// Vertical coordinate the head will occupy after the next advance.
pub open spec fn next_head_j(segs: Seq<Segment>, facing: Direction) -> int {
    segs[0].cell.j + spec_delta(facing).j
}

/// Whether the next advance lands the head on the coin.
pub open spec fn spec_hits_coin(segs: Seq<Segment>, facing: Direction, coin: Coin) -> bool {
    next_head_i(segs, facing) == coin.cell.i && next_head_j(segs, facing) == coin.cell.j
}

/// Whether the next advance takes the head outside the play field.
pub open spec fn spec_leaves_grid(segs: Seq<Segment>, facing: Direction) -> bool {
    !(0 <= next_head_i(segs, facing) < GRID_X as int && 0 <= next_head_j(segs, facing)
        < GRID_Y as int)
}

/// Whether the next advance lands the head on its own body: after the
/// shift, the non-head segments occupy exactly the cells of the old
/// segments `0 .. len - 1`.
pub open spec fn spec_hits_self(segs: Seq<Segment>, facing: Direction) -> bool {
    exists|k: int|
        0 <= k < segs.len() - 1 && (#[trigger] segs[k]).cell.i == next_head_i(segs, facing)
            && segs[k].cell.j == next_head_j(segs, facing)
}

/// Whether the next advance ends the game; pickup is independent of this
/// and may happen on the same tick.
pub open spec fn spec_fatal(segs: Seq<Segment>, facing: Direction) -> bool {
    spec_leaves_grid(segs, facing) || spec_hits_self(segs, facing)
}

/// Everything one tick does to a playing session whose snake had segments
/// `segs`, committed facing `facing` and `len` segments, with `coin` in
/// play: the body shifts behind the new head; on pickup the body grows by
/// one segment behind the tail and a fresh coin is placed somewhere on
/// the grid; a fatal check moves the phase to GameOver.
pub open spec fn spec_ticked(
    post: Session,
    segs: Seq<Segment>,
    facing: Direction,
    len: int,
    coin: Coin,
) -> bool {
    let n = segs.len() as int;
    &&& post.snake.facing == facing
    &&& post.snake.segments@[0].cell.i == next_head_i(segs, facing)
    &&& post.snake.segments@[0].cell.j == next_head_j(segs, facing)
    &&& post.snake.segments@[0].direction == facing
    &&& forall|k: int| 1 <= k < n ==> #[trigger] post.snake.segments@[k] == segs[k - 1]
    &&& if spec_hits_coin(segs, facing, coin) {
        &&& post.snake.length == len + 1
        &&& post.snake.segments@.len() == n + 1
        &&& n >= 2 ==> {
            &&& post.snake.segments@[n].direction == segs[n - 2].direction
            &&& post.snake.segments@[n].cell.i == segs[n - 2].cell.i - spec_delta(
                segs[n - 2].direction,
            ).i
            &&& post.snake.segments@[n].cell.j == segs[n - 2].cell.j - spec_delta(
                segs[n - 2].direction,
            ).j
        }
        &&& spec_in_bounds(post.coin.cell)
    } else {
        &&& post.snake.length == len
        &&& post.snake.segments@.len() == n
        &&& post.coin == coin
    }
    &&& post.phase == (if spec_fatal(segs, facing) {
        Phase::GameOver
    } else {
        Phase::Playing
    })
}

impl Session {
    /// Session invariant: the snake is well formed and at least its
    /// starting length, the head is on the grid whenever play is live,
    /// the coin is on the grid, and the timer has a positive interval.
    pub open spec fn wf(self) -> bool {
        &&& self.snake.wf()
        &&& self.snake.length >= START_LENGTH
        &&& self.phase == Phase::Playing ==> spec_in_bounds(self.snake.segments@[0].cell)
        &&& spec_in_bounds(self.coin.cell)
        &&& self.timer.wf()
    }

    /// A fresh session: snake at the center, one coin somewhere on the
    /// grid, phase Playing, timer at the standard interval.
    pub fn new() -> (r: Session)
        ensures
            r.wf(),
            r.phase == Phase::Playing,
            spec_initial(r.snake),
            spec_in_bounds(r.coin.cell),
            r.timer.interval_micros == TICK_MICROS,
            r.timer.accumulated_micros == 0,
    {
        let snake = Snake::new();
        let coin = Coin { cell: random_cell() };
        let timer = MoveTimer::new(TICK_MICROS);
        Session { snake, coin, phase: Phase::Playing, timer }
    }

    /// The score shown to the player: segments gained since the start.
    pub fn score(&self) -> (r: u32)
        requires
            self.wf(),
        ensures
            r == self.snake.length - START_LENGTH,
    {
        self.snake.length - START_LENGTH
    }

    /// Re-enter play from any state: a fresh snake and coin; the score
    /// falls back to zero with the snake's length. The timer keeps
    /// running unchanged.
    pub fn restart(&mut self)
        requires
            old(self).wf(),
        ensures
            final(self).wf(),
            final(self).phase == Phase::Playing,
            spec_initial(final(self).snake),
            spec_in_bounds(final(self).coin.cell),
            final(self).timer == old(self).timer,
    {
        self.snake = Snake::new();
        self.coin = Coin { cell: random_cell() };
        self.phase = Phase::Playing;
    }

    /// One movement tick: a no-op unless the phase is Playing; otherwise
    /// the snake advances along its committed facing, then the three
    /// checks run against the advanced head — pickup grows the snake and
    /// replaces the coin (exactly one coin exists afterward, and the
    /// length rises by exactly one, wherever the coin was), and leaving
    /// the grid or overlapping the body ends the game. A pickup and a
    /// fatal check may land on the same tick.
    pub fn advance_tick(&mut self)
        requires
            old(self).wf(),
            old(self).snake.length < MAX_LENGTH,
        ensures
            final(self).wf(),
            old(self).phase == Phase::GameOver ==> *final(self) == *old(self),
            old(self).phase == Phase::Playing ==> spec_ticked(
                *final(self),
                old(self).snake.segments@,
                old(self).snake.facing,
                old(self).snake.length as int,
                old(self).coin,
            ),
            final(self).timer == old(self).timer,
    {
        if self.phase == Phase::GameOver {
            return ;
        }
        let ghost os = self.snake.segments@;
        let ghost facing = self.snake.facing;
        let d = delta(self.snake.facing);
        self.snake.advance(d);
        let head = self.snake.head_cell();
        let inside = in_bounds(head);
        let hit_self = self.snake.overlaps_self();
        proof {
            if hit_self {
                let k = choose|k: int|
                    1 <= k < self.snake.segments@.len() && (
                    #[trigger] self.snake.segments@[k]).cell == self.snake.segments@[0].cell;
                assert((#[trigger] os[k - 1]).cell.i == next_head_i(os, facing));
            }
            if spec_hits_self(os, facing) {
                let k = choose|k: int|
                    0 <= k < os.len() - 1 && (#[trigger] os[k]).cell.i == next_head_i(os, facing)
                        && os[k].cell.j == next_head_j(os, facing);
                assert(self.snake.segments@[k + 1] == os[k]);
                assert(self.snake.segments@[k + 1].cell == self.snake.segments@[0].cell);
            }
            assert(hit_self == spec_hits_self(os, facing));
        }
        if head.i == self.coin.cell.i && head.j == self.coin.cell.j {
            self.snake.grow();
            self.coin = Coin { cell: random_cell() };
        }
        if !inside || hit_self {
            self.phase = Phase::GameOver;
        }
    }

    /// One frame of the simulation. While playing: the frame's presses
    /// update the committed facing through the turn filter, the elapsed
    /// time feeds the timer, and if the timer fires the snake takes one
    /// tick. In GameOver only the restart key matters; it re-enters play.
    pub fn step(
        &mut self,
        presses: &Vec<Direction>,
        restart_pressed: bool,
        elapsed_micros: u64,
    )
        requires
            old(self).wf(),
            old(self).snake.length < MAX_LENGTH,
            old(self).timer.accumulated_micros + elapsed_micros <= u64::MAX,
        ensures
            final(self).wf(),
            old(self).phase == Phase::GameOver && !restart_pressed ==> *final(self) == *old(
                self,
            ),
            old(self).phase == Phase::GameOver && restart_pressed ==> {
                &&& final(self).phase == Phase::Playing
                &&& spec_initial(final(self).snake)
                &&& spec_in_bounds(final(self).coin.cell)
                &&& final(self).timer == old(self).timer
            },
            old(self).phase == Phase::Playing ==> {
                let facing2 = spec_resolve_all(old(self).snake.facing, presses@);
                let fired = old(self).timer.accumulated_micros + elapsed_micros >= old(
                    self,
                ).timer.interval_micros;
                &&& final(self).timer.interval_micros == old(self).timer.interval_micros
                &&& fired ==> final(self).timer.accumulated_micros == old(
                    self,
                ).timer.accumulated_micros + elapsed_micros - old(self).timer.interval_micros
                &&& !fired ==> final(self).timer.accumulated_micros == old(
                    self,
                ).timer.accumulated_micros + elapsed_micros
                &&& !fired ==> {
                    &&& final(self).snake.segments@ == old(self).snake.segments@
                    &&& final(self).snake.length == old(self).snake.length
                    &&& final(self).snake.facing == facing2
                    &&& final(self).coin == old(self).coin
                    &&& final(self).phase == Phase::Playing
                }
                &&& fired ==> spec_ticked(
                    *final(self),
                    old(self).snake.segments@,
                    facing2,
                    old(self).snake.length as int,
                    old(self).coin,
                )
            },
    {
        if self.phase == Phase::GameOver {
            if restart_pressed {
                self.restart();
            }
            return ;
        }
        self.snake.apply_presses(presses);
        let fired = self.timer.tick(elapsed_micros);
        if fired {
            self.advance_tick();
        }
    }
}

} // verus!
