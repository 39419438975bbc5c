use snake::direction::{Direction, DirectionLog};
use snake::grid::{Grid, Position};
use snake::rgb;
use snake::snake::Snake;
use snake::world::{return_in_time, snake_generator, Cli, Difficulty, TimeCycle, World};

fn pos(x: usize, y: usize) -> Position {
    Position { x, y }
}

fn base_cli(width: usize, height: usize) -> Cli {
    Cli {
        width,
        height,
        snake_size_start: 3,
        file_path: None,
        snake_speed: 100,
        speed_increase: Difficulty::Medium,
        bad_berries: false,
        ghost_mode: false,
        two_players_mode: false,
    }
}

fn base_world(direction: Direction, food: Position) -> World {
    World::new(
        Snake::new(Vec::new(), direction, DirectionLog::new(Direction::Still, Direction::Still)),
        None,
        food,
        None,
        0,
        100,
        false,
        0,
        TimeCycle::Forward,
        0x0033CCFF,
        0x00CC33FF,
        0x0000FF00,
        0x00FF0000,
    )
}

#[test]
fn test_rgb() {
    assert_eq!(rgb(0, 0, 0), 0x00_00_00_00);
    assert_eq!(rgb(255, 255, 255), 0x00_ff_ff_ff);
    assert_eq!(rgb(0x12, 0x34, 0x56), 0x00_12_34_56);
}

#[test]
fn snake_moves_east() {
    let grid = Grid { width: 8, height: 6 };
    let cli = base_cli(8, 6);
    let mut world = base_world(Direction::East, pos(0, 0));
    snake_generator(&mut world, &grid, &cli);
    assert_eq!(world.snake.body, vec![pos(2, 3), pos(3, 3), pos(4, 3)]);

    world.snake_update(&grid, &cli, false);
    assert_eq!(world.snake.body, vec![pos(3, 3), pos(4, 3), pos(5, 3)]);

    world.snake_update(&grid, &cli, false);
    assert_eq!(world.snake.body, vec![pos(4, 3), pos(5, 3), pos(6, 3)]);

    world.snake_update(&grid, &cli, false);
    assert_eq!(world.snake.body, vec![pos(5, 3), pos(6, 3), pos(7, 3)]);
    assert!(!world.finished);
    assert_eq!(world.snake.score, 0);
}

#[test]
fn snake_moves_north() {
    let grid = Grid { width: 8, height: 8 };
    let cli = base_cli(8, 8);
    let mut world = base_world(Direction::North, pos(0, 0));
    snake_generator(&mut world, &grid, &cli);
    assert_eq!(world.snake.body, vec![pos(2, 4), pos(3, 4), pos(4, 4)]);

    world.snake_update(&grid, &cli, false);
    assert_eq!(world.snake.body, vec![pos(3, 4), pos(4, 4), pos(4, 3)]);

    world.snake_update(&grid, &cli, false);
    assert_eq!(world.snake.body, vec![pos(4, 4), pos(4, 3), pos(4, 2)]);

    world.snake_update(&grid, &cli, false);
    assert_eq!(world.snake.body, vec![pos(4, 3), pos(4, 2), pos(4, 1)]);
}

#[test]
fn snake_moves_south() {
    let grid = Grid { width: 8, height: 8 };
    let cli = base_cli(8, 8);
    let mut world = base_world(Direction::South, pos(0, 0));
    snake_generator(&mut world, &grid, &cli);
    assert_eq!(world.snake.body, vec![pos(2, 4), pos(3, 4), pos(4, 4)]);

    world.snake_update(&grid, &cli, false);
    assert_eq!(world.snake.body, vec![pos(3, 4), pos(4, 4), pos(4, 5)]);

    world.snake_update(&grid, &cli, false);
    assert_eq!(world.snake.body, vec![pos(4, 4), pos(4, 5), pos(4, 6)]);

    world.snake_update(&grid, &cli, false);
    assert_eq!(world.snake.body, vec![pos(4, 5), pos(4, 6), pos(4, 7)]);
}

#[test]
fn snake_moves_west() {
    let grid = Grid { width: 10, height: 8 };
    let cli = base_cli(10, 8);
    let mut world = base_world(Direction::West, pos(0, 0));
    snake_generator(&mut world, &grid, &cli);
    assert_eq!(world.snake.body, vec![pos(3, 4), pos(4, 4), pos(5, 4)]);

    // the first westward move enters the cell the body still covers: the
    // snake halts on the self-collision with its body unchanged
    world.snake_update(&grid, &cli, false);
    assert_eq!(world.snake.body, vec![pos(3, 4), pos(4, 4), pos(5, 4)]);
    assert!(world.finished);
    assert_eq!(world.snake.direction, Direction::Still);
}

#[test]
fn snake_eats() {
    let grid = Grid { width: 13, height: 3 };
    let cli = base_cli(13, 3);
    let mut world = base_world(Direction::East, pos(8, 1));
    snake_generator(&mut world, &grid, &cli);
    assert_eq!(world.snake.body, vec![pos(4, 1), pos(5, 1), pos(6, 1)]);

    world.snake_update(&grid, &cli, false);
    assert_eq!(world.snake.body, vec![pos(5, 1), pos(6, 1), pos(7, 1)]);

    world.snake_update(&grid, &cli, false);
    assert_eq!(world.snake.body, vec![pos(6, 1), pos(7, 1), pos(8, 1)]);
    assert_eq!(world.snake.score, 0);

    // the head stands on the food: this tick grows the body by one cell,
    // adds ten to the score, and respawns the food off the occupied cells
    world.snake_update(&grid, &cli, false);
    assert_eq!(world.snake.body, vec![pos(6, 1), pos(7, 1), pos(8, 1), pos(9, 1)]);
    assert_eq!(world.snake.score, 10);
    assert!(world.food.x < 13 && world.food.y < 3);
    assert!(!world.snake.body.contains(&world.food));

    // park the food out of the way to keep the rest of the run deterministic
    world.food = pos(0, 0);
    world.snake_update(&grid, &cli, false);
    assert_eq!(world.snake.body, vec![pos(7, 1), pos(8, 1), pos(9, 1), pos(10, 1)]);

    world.snake_update(&grid, &cli, false);
    assert_eq!(world.snake.body, vec![pos(8, 1), pos(9, 1), pos(10, 1), pos(11, 1)]);

    world.snake_update(&grid, &cli, false);
    assert_eq!(world.snake.body, vec![pos(9, 1), pos(10, 1), pos(11, 1), pos(12, 1)]);
}

#[test]
fn snake_turns_time() {
    let grid = Grid { width: 13, height: 3 };
    let cli = base_cli(13, 3);
    let mut world = base_world(Direction::East, pos(8, 1));
    world.time_cycle = TimeCycle::Backward;
    snake_generator(&mut world, &grid, &cli);
    let start = world.snake.body.clone();

    // with no recorded forward ticks, backward playback is a no-op however
    // often it runs
    for _ in 0..6 {
        return_in_time(&mut world, &cli);
        assert_eq!(world.snake.body, start);
        assert!(!world.finished);
    }
}

#[test]
fn rewind_restores_forward_run() {
    let grid = Grid { width: 13, height: 3 };
    let cli = base_cli(13, 3);
    let mut world = base_world(Direction::East, pos(0, 0));
    snake_generator(&mut world, &grid, &cli);
    let start = world.snake.body.clone();

    world.snake_update(&grid, &cli, false);
    world.snake_update(&grid, &cli, false);
    world.snake_update(&grid, &cli, false);
    assert_eq!(world.snake.body, vec![pos(7, 1), pos(8, 1), pos(9, 1)]);
    assert_eq!(world.snake.rewound, vec![pos(4, 1), pos(5, 1), pos(6, 1)]);

    return_in_time(&mut world, &cli);
    assert_eq!(world.snake.body, vec![pos(6, 1), pos(7, 1), pos(8, 1)]);
    return_in_time(&mut world, &cli);
    assert_eq!(world.snake.body, vec![pos(5, 1), pos(6, 1), pos(7, 1)]);
    return_in_time(&mut world, &cli);
    assert_eq!(world.snake.body, start);
    assert!(world.snake.rewound.is_empty());

    // one more rewind than forward ticks changes nothing
    return_in_time(&mut world, &cli);
    assert_eq!(world.snake.body, start);
}

#[test]
fn rewind_lifts_finished_flag() {
    let grid = Grid { width: 13, height: 3 };
    let cli = base_cli(13, 3);
    let mut world = base_world(Direction::East, pos(0, 0));
    snake_generator(&mut world, &grid, &cli);
    world.snake_update(&grid, &cli, false);
    world.finished = true;
    return_in_time(&mut world, &cli);
    assert!(!world.finished);
    assert_eq!(world.snake.body, vec![pos(4, 1), pos(5, 1), pos(6, 1)]);
}

#[test]
fn tick_driver_modes() {
    let grid = Grid { width: 13, height: 3 };
    let cli = base_cli(13, 3);
    let mut world = base_world(Direction::East, pos(0, 0));
    snake_generator(&mut world, &grid, &cli);

    // Forward: one tick moves the snake
    world.tick(&grid, &cli);
    assert_eq!(world.snake.body, vec![pos(5, 1), pos(6, 1), pos(7, 1)]);

    // Backward: one backward step, then the driver freezes on Pause
    world.time_cycle = TimeCycle::Backward;
    world.tick(&grid, &cli);
    assert_eq!(world.snake.body, vec![pos(4, 1), pos(5, 1), pos(6, 1)]);
    assert_eq!(world.time_cycle, TimeCycle::Pause);

    // Pause: nothing moves
    world.tick(&grid, &cli);
    assert_eq!(world.snake.body, vec![pos(4, 1), pos(5, 1), pos(6, 1)]);

    // Forward again, but a finished game stays put
    world.time_cycle = TimeCycle::Forward;
    world.finished = true;
    world.tick(&grid, &cli);
    assert_eq!(world.snake.body, vec![pos(4, 1), pos(5, 1), pos(6, 1)]);
}

#[test]
fn update_gated_by_pause_parity() {
    let grid = Grid { width: 13, height: 3 };
    let cli = base_cli(13, 3);
    let mut world = base_world(Direction::East, pos(0, 0));
    snake_generator(&mut world, &grid, &cli);

    world.toggle_pause();
    assert_eq!(world.space_count, 1);
    world.update(&grid, &cli);
    assert_eq!(world.snake.body, vec![pos(4, 1), pos(5, 1), pos(6, 1)]);

    world.toggle_pause();
    assert_eq!(world.space_count, 2);
    world.update(&grid, &cli);
    assert_eq!(world.snake.body, vec![pos(5, 1), pos(6, 1), pos(7, 1)]);
}

#[test]
fn reset_clears_snake_bundles() {
    let grid = Grid { width: 13, height: 3 };
    let cli = base_cli(13, 3);
    let mut world = base_world(Direction::East, pos(0, 0));
    snake_generator(&mut world, &grid, &cli);
    world.snake_update(&grid, &cli, false);
    assert!(!world.snake.rewound.is_empty());

    world.reset();
    assert!(world.snake.body.is_empty());
    assert!(world.snake.rewound.is_empty());
    assert_eq!(world.snake.direction, Direction::Still);
    assert_eq!(world.snake.log.last, Direction::Still);
    assert!(!world.snake.log.varied);
}
