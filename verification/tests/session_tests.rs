use snake_core::grid::{in_bounds, Direction, GridCoord};
use snake_core::rng::random_cell;
use snake_core::session::{Coin, Phase, Session};
use snake_core::snake::{Segment, Snake};
use snake_core::timer::{MoveTimer, TICK_MICROS};

fn seg(i: i32, j: i32, direction: Direction) -> Segment {
    Segment { cell: GridCoord { i, j }, direction }
}

/// A session whose coin sits where the snake, moving up, can never reach
/// it, so ticks stay deterministic.
fn quiet_session() -> Session {
    let mut session = Session::new();
    session.coin = Coin { cell: GridCoord { i: 0, j: 0 } };
    session
}

#[test]
fn timer_fires_once_the_interval_is_reached() {
    let mut t = MoveTimer::new(100);
    assert!(!t.tick(60));
    assert_eq!(t.accumulated_micros, 60);
    assert!(t.tick(60));
    assert_eq!(t.accumulated_micros, 20);
    assert!(!t.tick(79));
    assert!(t.tick(1));
    assert_eq!(t.accumulated_micros, 0);
}

#[test]
fn coin_pickup_grows_by_one_and_leaves_one_coin() {
    let mut session = quiet_session();
    // place the coin exactly where the next advance puts the head
    session.coin = Coin { cell: GridCoord { i: 30, j: 18 } };
    session.advance_tick();
    assert_eq!(session.snake.length, 4);
    assert_eq!(session.score(), 1);
    assert_eq!(session.phase, Phase::Playing);
    // the session holds exactly one coin, and it is on the grid
    assert!(in_bounds(session.coin.cell));
}

#[test]
fn coin_pickup_works_wherever_the_coin_sits() {
    let mut session = quiet_session();
    session.snake = Snake {
        segments: vec![seg(2, 9, Direction::Right), seg(1, 9, Direction::Right), seg(0, 9, Direction::Right)],
        length: 3,
        facing: Direction::Right,
    };
    session.coin = Coin { cell: GridCoord { i: 3, j: 9 } };
    session.advance_tick();
    assert_eq!(session.snake.length, 4);
    assert_eq!(session.score(), 1);
    assert!(in_bounds(session.coin.cell));
    // growth follows the advance: the shifted tail sits at (1, 9) heading
    // right, so the new segment lands one cell behind it
    assert_eq!(session.snake.segments[3].cell, GridCoord { i: 0, j: 9 });
}

#[test]
fn missing_the_coin_changes_nothing_but_position() {
    let mut session = quiet_session();
    session.advance_tick();
    assert_eq!(session.snake.length, 3);
    assert_eq!(session.score(), 0);
    assert_eq!(session.coin.cell, GridCoord { i: 0, j: 0 });
    assert_eq!(session.snake.head_cell(), GridCoord { i: 30, j: 18 });
}

#[test]
fn three_quiet_ticks_move_the_head_three_cells_up() {
    let mut session = quiet_session();
    for _ in 0..3 {
        session.step(&vec![], false, TICK_MICROS);
    }
    assert_eq!(session.snake.head_cell(), GridCoord { i: 30, j: 20 });
    assert_eq!(session.score(), 0);
    assert_eq!(session.phase, Phase::Playing);

    // then force the head onto the coin's cell
    session.coin = Coin { cell: GridCoord { i: 30, j: 21 } };
    session.step(&vec![], false, TICK_MICROS);
    assert_eq!(session.score(), 1);
    assert_eq!(session.snake.length, 4);
    assert!(in_bounds(session.coin.cell));
}

#[test]
fn a_frame_shorter_than_the_interval_moves_nothing() {
    let mut session = quiet_session();
    session.step(&vec![Direction::Left], false, TICK_MICROS / 2);
    assert_eq!(session.snake.head_cell(), GridCoord { i: 30, j: 17 });
    // the press still landed on the committed facing
    assert_eq!(session.snake.facing, Direction::Left);
    // and the remainder is kept for the next frame
    session.step(&vec![], false, TICK_MICROS - TICK_MICROS / 2);
    assert_eq!(session.snake.head_cell(), GridCoord { i: 29, j: 17 });
}

#[test]
fn leaving_the_grid_ends_the_game() {
    let mut session = quiet_session();
    session.snake = Snake {
        segments: vec![seg(30, 34, Direction::Up), seg(30, 33, Direction::Up), seg(30, 32, Direction::Up)],
        length: 3,
        facing: Direction::Up,
    };
    session.advance_tick();
    assert_eq!(session.phase, Phase::GameOver);
    assert_eq!(session.snake.head_cell(), GridCoord { i: 30, j: 35 });
}

#[test]
fn self_overlap_ends_the_game() {
    // a hook of body around the head: moving up lands on a body cell
    let mut session = quiet_session();
    session.snake = Snake {
        segments: vec![
            seg(10, 10, Direction::Right),
            seg(10, 11, Direction::Down),
            seg(11, 11, Direction::Left),
            seg(11, 10, Direction::Up),
        ],
        length: 4,
        facing: Direction::Up,
    };
    session.advance_tick();
    assert_eq!(session.phase, Phase::GameOver);
}

#[test]
fn pickup_and_fatal_check_may_share_a_tick() {
    // the head advances onto a body cell that also holds the coin: the
    // snake still eats and grows, and the game still ends
    let mut session = quiet_session();
    session.snake = Snake {
        segments: vec![
            seg(10, 10, Direction::Right),
            seg(10, 11, Direction::Down),
            seg(11, 11, Direction::Left),
            seg(11, 10, Direction::Up),
        ],
        length: 4,
        facing: Direction::Up,
    };
    session.coin = Coin { cell: GridCoord { i: 10, j: 11 } };
    session.advance_tick();
    assert_eq!(session.phase, Phase::GameOver);
    assert_eq!(session.snake.length, 5);
    assert_eq!(session.score(), 2);
    assert!(in_bounds(session.coin.cell));
}

#[test]
fn timer_fires_at_most_once_per_check() {
    // a long frame leaves the surplus accumulated rather than firing twice
    let mut t = MoveTimer::new(100);
    assert!(t.tick(205));
    assert_eq!(t.accumulated_micros, 105);
    assert!(t.tick(0));
    assert_eq!(t.accumulated_micros, 5);
}

#[test]
fn ticks_are_no_ops_after_game_over() {
    let mut session = quiet_session();
    session.phase = Phase::GameOver;
    session.advance_tick();
    assert_eq!(session.phase, Phase::GameOver);
    assert_eq!(session.snake.head_cell(), GridCoord { i: 30, j: 17 });
    session.step(&vec![Direction::Left], false, TICK_MICROS);
    assert_eq!(session.snake.head_cell(), GridCoord { i: 30, j: 17 });
    assert_eq!(session.snake.facing, Direction::Up);
}

#[test]
fn restart_after_a_bounds_violation() {
    let mut session = quiet_session();
    // drive the head off the top edge: 18 ticks from j = 17 to j = 35
    for _ in 0..18 {
        session.step(&vec![], false, TICK_MICROS);
    }
    assert_eq!(session.phase, Phase::GameOver);

    session.step(&vec![], true, TICK_MICROS);
    assert_eq!(session.phase, Phase::Playing);
    assert_eq!(session.snake.length, 3);
    assert_eq!(session.score(), 0);
    assert_eq!(session.snake.head_cell(), GridCoord { i: 30, j: 17 });
    assert!(in_bounds(session.coin.cell));
}

#[test]
fn restart_key_is_ignored_while_playing() {
    let mut session = quiet_session();
    session.step(&vec![], true, TICK_MICROS);
    // the restart key did not reset the running game; the tick still ran
    assert_eq!(session.snake.head_cell(), GridCoord { i: 30, j: 18 });
}

#[test]
fn random_cells_stay_on_the_grid() {
    for _ in 0..1000 {
        let c = random_cell();
        assert!(in_bounds(c));
    }
}

#[test]
fn fresh_sessions_place_the_coin_on_the_grid() {
    for _ in 0..100 {
        let session = Session::new();
        assert!(in_bounds(session.coin.cell));
        assert_eq!(session.phase, Phase::Playing);
        assert_eq!(session.score(), 0);
        assert_eq!(session.timer.interval_micros, TICK_MICROS);
        assert_eq!(session.timer.accumulated_micros, 0);
    }
}
