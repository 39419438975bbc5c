use snake::direction::{Direction, DirectionLog};
use snake::grid::{Grid, Position};
use snake::snake::Snake;
use snake::world::{
    snake_generator, snakes_collision_checker, Cli, Difficulty, TimeCycle, World,
    HARD_BASELINE_SPEED,
};

fn pos(x: usize, y: usize) -> Position {
    Position { x, y }
}

fn cli_for(width: usize, height: usize) -> Cli {
    Cli {
        width,
        height,
        snake_size_start: 3,
        file_path: None,
        snake_speed: 100,
        speed_increase: Difficulty::Medium,
        bad_berries: false,
        ghost_mode: false,
        two_players_mode: false,
    }
}

fn world_with(body: Vec<Position>, direction: Direction, food: Position, speed: usize) -> World {
    World::new(
        Snake::new(body, direction, DirectionLog::new(Direction::Still, Direction::Still)),
        None,
        food,
        None,
        0,
        speed,
        false,
        0,
        TimeCycle::Forward,
        0x0033CCFF,
        0x00CC33FF,
        0x0000FF00,
        0x00FF0000,
    )
}

#[test]
fn conflicting_turn_request_is_ignored() {
    let grid = Grid { width: 8, height: 6 };
    let cli = cli_for(8, 6);
    let mut world = world_with(Vec::new(), Direction::Still, pos(0, 0), 100);
    snake_generator(&mut world, &grid, &cli);

    world.direction(Direction::North);
    assert_eq!(world.snake.direction, Direction::North);
    world.snake_update(&grid, &cli, false);

    // North is now the committed direction: the conflicting South request is
    // ignored and the original direction stays
    world.direction(Direction::South);
    assert_eq!(world.snake.direction, Direction::North);

    // a non-conflicting turn is honoured
    world.direction(Direction::East);
    assert_eq!(world.snake.direction, Direction::East);
}

#[test]
fn locked_turn_needs_varied_history() {
    let grid = Grid { width: 8, height: 6 };
    let cli = cli_for(8, 6);
    let mut world = world_with(Vec::new(), Direction::Still, pos(0, 0), 100);
    snake_generator(&mut world, &grid, &cli);
    assert_eq!(world.snake.log.locked, Direction::West);

    // a fresh snake lies head-East: turning West would reverse straight into
    // the body, so the request is ignored until the history has varied
    world.direction(Direction::West);
    assert_eq!(world.snake.direction, Direction::Still);

    world.direction(Direction::North);
    world.snake_update(&grid, &cli, false);
    world.direction(Direction::West);
    assert_eq!(world.snake.direction, Direction::West);
}

#[test]
fn self_collision_halts_with_body_unchanged() {
    let grid = Grid { width: 8, height: 6 };
    let cli = cli_for(8, 6);
    // a four-cell hook about to bite its own column
    let body = vec![pos(2, 2), pos(3, 2), pos(3, 3), pos(2, 3)];
    let mut world = world_with(body.clone(), Direction::North, pos(0, 0), 100);

    world.snake_update(&grid, &cli, false);
    assert_eq!(world.snake.body, body);
    assert!(world.finished);
    assert_eq!(world.snake.direction, Direction::Still);
    assert_eq!(world.snake.log.last, Direction::Still);
}

#[test]
fn halted_snake_stays_halted() {
    let grid = Grid { width: 8, height: 6 };
    let cli = cli_for(8, 6);
    let body = vec![pos(2, 2), pos(3, 2), pos(3, 3), pos(2, 3)];
    let mut world = world_with(body.clone(), Direction::North, pos(0, 0), 100);
    world.snake_update(&grid, &cli, false);
    assert!(world.finished);

    // further ticks leave the halted snake exactly where it stood
    world.snake_update(&grid, &cli, false);
    world.snake_update(&grid, &cli, false);
    assert_eq!(world.snake.body, body);
    assert_eq!(world.snake.direction, Direction::Still);
}

#[test]
fn ghost_mode_wraps_east_exit() {
    let grid = Grid { width: 5, height: 3 };
    let mut cli = cli_for(5, 3);
    cli.ghost_mode = true;
    let mut world = world_with(vec![pos(2, 1), pos(3, 1), pos(4, 1)], Direction::East, pos(0, 0), 100);

    world.snake_update(&grid, &cli, false);
    assert_eq!(world.snake.body, vec![pos(3, 1), pos(4, 1), pos(0, 1)]);
    assert!(!world.finished);
}

#[test]
fn wall_halts_without_ghost_mode() {
    let grid = Grid { width: 5, height: 3 };
    let cli = cli_for(5, 3);
    let body = vec![pos(2, 1), pos(3, 1), pos(4, 1)];
    let mut world = world_with(body.clone(), Direction::East, pos(0, 0), 100);

    world.snake_update(&grid, &cli, false);
    assert_eq!(world.snake.body, body);
    assert!(world.finished);
    assert_eq!(world.snake.direction, Direction::Still);
}

#[test]
fn ghost_mode_wraps_every_edge() {
    let grid = Grid { width: 4, height: 4 };
    let mut cli = cli_for(4, 4);
    cli.ghost_mode = true;

    let mut world = world_with(vec![pos(2, 0), pos(1, 0), pos(0, 0)], Direction::West, pos(3, 3), 100);
    world.snake_update(&grid, &cli, false);
    assert_eq!(world.snake.body, vec![pos(1, 0), pos(0, 0), pos(3, 0)]);

    let mut world = world_with(vec![pos(1, 2), pos(1, 1), pos(1, 0)], Direction::North, pos(3, 3), 100);
    world.snake_update(&grid, &cli, false);
    assert_eq!(world.snake.body, vec![pos(1, 1), pos(1, 0), pos(1, 3)]);

    let mut world = world_with(vec![pos(2, 1), pos(2, 2), pos(2, 3)], Direction::South, pos(0, 0), 100);
    world.snake_update(&grid, &cli, false);
    assert_eq!(world.snake.body, vec![pos(2, 2), pos(2, 3), pos(2, 0)]);
}

#[test]
fn hard_difficulty_speed_curve() {
    let grid = Grid { width: 13, height: 3 };
    let mut cli = cli_for(13, 3);
    cli.speed_increase = Difficulty::Hard;
    let mut world = world_with(vec![pos(4, 1), pos(5, 1), pos(6, 1)], Direction::East, pos(8, 1), 100);

    // every plain forward tick wears the interval down by one
    world.snake_update(&grid, &cli, false);
    assert_eq!(world.snake_speed, 99);
    world.snake_update(&grid, &cli, false);
    assert_eq!(world.snake_speed, 98);

    // eating resets it to the baseline
    world.snake_update(&grid, &cli, false);
    assert_eq!(world.snake.body.len(), 4);
    assert_eq!(world.snake_speed, HARD_BASELINE_SPEED);
}

#[test]
fn easy_difficulty_keeps_speed() {
    let grid = Grid { width: 13, height: 3 };
    let mut cli = cli_for(13, 3);
    cli.speed_increase = Difficulty::Easy;
    let mut world = world_with(vec![pos(4, 1), pos(5, 1), pos(6, 1)], Direction::East, pos(0, 0), 100);
    world.snake_update(&grid, &cli, false);
    world.snake_update(&grid, &cli, false);
    assert_eq!(world.snake_speed, 100);
}

#[test]
fn bad_berry_toggles_speed() {
    let grid = Grid { width: 13, height: 3 };
    let mut cli = cli_for(13, 3);
    cli.bad_berries = true;
    let mut world = world_with(vec![pos(4, 1), pos(5, 1), pos(6, 1)], Direction::East, pos(12, 2), 90);
    world.bad_berries_position = Some(pos(6, 1));

    // first berry: odd count, the interval drops to a third; the body grows
    // and both consumables respawn clear of it
    world.snake_update(&grid, &cli, false);
    assert_eq!(world.bad_berries, 1);
    assert_eq!(world.snake_speed, 30);
    assert_eq!(world.snake.body, vec![pos(4, 1), pos(5, 1), pos(6, 1), pos(7, 1)]);
    assert_eq!(world.snake.score, 10);
    let berry = world.bad_berries_position.expect("berry respawned");
    assert!(berry != world.food);
    assert!(!world.snake.body.contains(&berry));
    assert!(!world.snake.body.contains(&world.food));

    // second berry: even count, the interval triples back
    world.food = pos(12, 2);
    world.bad_berries_position = Some(pos(7, 1));
    world.snake_update(&grid, &cli, false);
    assert_eq!(world.bad_berries, 2);
    assert_eq!(world.snake_speed, 90);
    assert_eq!(world.snake.body.len(), 5);
}

#[test]
fn food_respawn_avoids_occupied_cells() {
    let grid = Grid { width: 4, height: 1 };
    let cli = cli_for(4, 1);
    let mut world = world_with(vec![pos(0, 0), pos(1, 0), pos(2, 0)], Direction::East, pos(3, 0), 100);

    // the only free cell after the growth move is the vacated... none: the
    // body fills the row; the spawn must fail and leave the food in place
    let spawned = world.food_generator(&grid, &cli);
    assert!(spawned);
    assert_eq!(world.food, pos(3, 0));

    world.snake.body.push(pos(3, 0));
    let spawned = world.food_generator(&grid, &cli);
    assert!(!spawned);
    assert_eq!(world.food, pos(3, 0));
}

#[test]
fn cross_snake_collision_detection() {
    let mut cli = cli_for(8, 6);
    cli.two_players_mode = true;

    // the first snake's head stands on the second one's body
    let first = Snake::new(
        vec![pos(1, 1), pos(2, 1), pos(3, 1)],
        Direction::East,
        DirectionLog::new(Direction::Still, Direction::Still),
    );
    let second = Snake::new(
        vec![pos(3, 1), pos(3, 2), pos(3, 3)],
        Direction::West,
        DirectionLog::new(Direction::Still, Direction::Still),
    );
    let world = World::new(
        first,
        Some(second),
        pos(0, 0),
        None,
        0,
        100,
        false,
        0,
        TimeCycle::Forward,
        0,
        0,
        0,
        0,
    );
    assert!(snakes_collision_checker(&world, &cli));

    // heads only touching head-to-head do not count as a collision
    let first = Snake::new(
        vec![pos(1, 1), pos(2, 1), pos(3, 1)],
        Direction::East,
        DirectionLog::new(Direction::Still, Direction::Still),
    );
    let second = Snake::new(
        vec![pos(5, 1), pos(4, 1), pos(3, 1)],
        Direction::West,
        DirectionLog::new(Direction::Still, Direction::Still),
    );
    let world = World::new(
        first,
        Some(second),
        pos(0, 0),
        None,
        0,
        100,
        false,
        0,
        TimeCycle::Forward,
        0,
        0,
        0,
        0,
    );
    assert!(!snakes_collision_checker(&world, &cli));

    // without two-player mode there is never a cross-snake collision
    let plain_cli = cli_for(8, 6);
    assert!(!snakes_collision_checker(&world, &plain_cli));
}

#[test]
fn two_player_tick_moves_both_snakes() {
    let grid = Grid { width: 10, height: 10 };
    let mut cli = cli_for(10, 10);
    cli.two_players_mode = true;
    let first = Snake::new(Vec::new(), Direction::Still, DirectionLog::new(Direction::Still, Direction::Still));
    let second = Snake::new(Vec::new(), Direction::Still, DirectionLog::new(Direction::Still, Direction::Still));
    let mut world = World::new(
        first,
        Some(second),
        pos(0, 0),
        None,
        0,
        100,
        false,
        0,
        TimeCycle::Forward,
        0,
        0,
        0,
        0,
    );
    snake_generator(&mut world, &grid, &cli);
    assert_eq!(world.snake.body, vec![pos(3, 5), pos(4, 5), pos(5, 5)]);
    let second_body = world.second_snake.as_ref().map(|s| s.body.clone()).unwrap();
    assert_eq!(second_body, vec![pos(5, 3), pos(4, 3), pos(3, 3)]);

    world.direction(Direction::East);
    world.direction_second_snake(Direction::West);
    world.update(&grid, &cli);
    assert_eq!(world.snake.body, vec![pos(4, 5), pos(5, 5), pos(6, 5)]);
    let second_body = world.second_snake.as_ref().map(|s| s.body.clone()).unwrap();
    assert_eq!(second_body, vec![pos(4, 3), pos(3, 3), pos(2, 3)]);

    // East would reverse the second snake's committed West heading
    world.direction_second_snake(Direction::East);
    let second_dir = world.second_snake.as_ref().map(|s| s.direction).unwrap();
    assert_eq!(second_dir, Direction::West);
}

#[test]
fn cross_collision_halts_both_snakes() {
    let grid = Grid { width: 10, height: 10 };
    let mut cli = cli_for(10, 10);
    cli.two_players_mode = true;
    // the first snake's head already overlaps the second snake's body
    let first = Snake::new(
        vec![pos(1, 3), pos(2, 3), pos(3, 3)],
        Direction::East,
        DirectionLog::new(Direction::Still, Direction::Still),
    );
    let second = Snake::new(
        vec![pos(3, 3), pos(3, 4), pos(3, 5)],
        Direction::South,
        DirectionLog::new(Direction::Still, Direction::Still),
    );
    let mut world = World::new(
        first,
        Some(second),
        pos(9, 9),
        None,
        0,
        100,
        false,
        0,
        TimeCycle::Forward,
        0,
        0,
        0,
        0,
    );
    world.update(&grid, &cli);
    assert!(world.finished);
    assert_eq!(world.snake.body, vec![pos(1, 3), pos(2, 3), pos(3, 3)]);
    assert_eq!(world.snake.direction, Direction::Still);
    let second_body = world.second_snake.as_ref().map(|s| s.body.clone()).unwrap();
    assert_eq!(second_body, vec![pos(3, 3), pos(3, 4), pos(3, 5)]);
}

#[test]
fn turn_request_resumes_forward_playback() {
    let mut world = world_with(vec![pos(1, 1), pos(2, 1), pos(3, 1)], Direction::East, pos(0, 0), 100);
    world.time_cycle = TimeCycle::Pause;
    world.direction(Direction::North);
    assert_eq!(world.time_cycle, TimeCycle::Forward);
}
