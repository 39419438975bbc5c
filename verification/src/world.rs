use vstd::prelude::*;
use crate::direction::{Direction, DirectionLog};
use crate::grid::{Grid, Position};
use crate::snake::{body_hits, outcome_spec, rewind_rel, snake_step_rel, MoveOutcome, Snake};
use crate::spawn::{free_spec, pick_free_cell};

verus! {

/// How hard the game plays; drives the speed curve.
#[derive(Clone, Copy, PartialEq, Eq, Structural, Debug)]
pub enum Difficulty {
    Easy,
    Medium,
    Hard,
}

/// Which pipeline a tick runs: the forward simulation, one backward-playback
/// step, or nothing.
#[derive(Clone, Copy, PartialEq, Eq, Structural, Debug)]
pub enum TimeCycle {
    Forward,
    Backward,
    Pause,
}

/// The game's configuration, as the command line provides it.
pub struct Cli {
    pub width: usize,
    pub height: usize,
    pub snake_size_start: usize,
    pub file_path: Option<String>,
    pub snake_speed: usize,
    pub speed_increase: Difficulty,
    pub bad_berries: bool,
    pub ghost_mode: bool,
    pub two_players_mode: bool,
}

/// The speed interval a snake falls back to when food is eaten on `Hard`.
pub const HARD_BASELINE_SPEED: usize = 120;

/// The whole game state: one or two snake bundles, the consumables, the
/// shared speed interval, the shared bad-berry counter, the pause gate, the
/// playback mode, and the colours the renderer reads.
pub struct World {
    pub snake: Snake,
    pub second_snake: Option<Snake>,
    pub food: Position,
    pub bad_berries_position: Option<Position>,
    pub bad_berries: usize,
    pub snake_speed: usize,
    pub finished: bool,
    pub space_count: usize,
    pub time_cycle: TimeCycle,
    pub first_snake_colour: u32,
    pub second_snake_colour: u32,
    pub food_colour: u32,
    pub bad_berries_colour: u32,
}

/// The second snake's body, when one plays.
pub open spec fn second_body_view(w: World) -> Option<Seq<Position>> {
    match w.second_snake {
        Some(s) => Some(s.body@),
        None => None,
    }
}

/// Whether the grid still has room to spawn: one free cell, or two distinct
/// free cells when the bad-berries feature needs a pair.
pub open spec fn room_for(
    g: Grid,
    s1: Seq<Position>,
    s2: Option<Seq<Position>>,
    pair: bool,
) -> bool {
    if pair {
        exists|p: Position, q: Position|
            g.contains(p) && g.contains(q) && p != q && free_spec(p, s1, s2, None) && free_spec(
                q,
                s1,
                s2,
                None,
            )
    } else {
        exists|p: Position| g.contains(p) && free_spec(p, s1, s2, None)
    }
}

/// What a consumable respawn leaves behind: fresh consumables on free cells,
/// or, only when the grid has no room left, the old ones untouched.
pub open spec fn spawn_post(
    pre_food: Position,
    pre_bad: Option<Position>,
    post: World,
    g: Grid,
    cli: Cli,
) -> bool {
    let s1 = post.snake.body@;
    let s2 = second_body_view(post);
    ||| {
        &&& post.food == pre_food
        &&& post.bad_berries_position == pre_bad
        &&& !room_for(g, s1, s2, cli.bad_berries)
    }
    ||| {
        &&& g.contains(post.food)
        &&& free_spec(post.food, s1, s2, None)
        &&& if cli.bad_berries {
            match post.bad_berries_position {
                Some(b) => g.contains(b) && free_spec(b, s1, s2, None) && b != post.food,
                None => false,
            }
        } else {
            post.bad_berries_position == pre_bad
        }
    }
}

/// The bad-berry counter after one berry, stopping below the integer's top.
pub open spec fn bump_spec(c: usize) -> usize {
    if c < usize::MAX {
        (c + 1) as usize
    } else {
        c
    }
}

/// Three times the speed interval, saturating instead of overflowing.
pub open spec fn triple_spec(s: usize) -> usize {
    if s <= usize::MAX / 3 {
        (3 * s) as usize
    } else {
        usize::MAX
    }
}

/// The shared speed interval after one tick whose outcome is `oc`:
/// on `Hard` a plain move wears it down by one (floored at zero) and food
/// resets it to the baseline; a bad berry toggles it, a third on odd
/// counter values, three times on later even ones.
pub open spec fn speed_after_spec(
    speed: usize,
    oc: MoveOutcome,
    diff: Difficulty,
    counter_post: usize,
) -> usize {
    if oc == MoveOutcome::Shifted && diff == Difficulty::Hard {
        if speed > 0 {
            (speed - 1) as usize
        } else {
            0
        }
    } else if oc == MoveOutcome::AteFood && diff == Difficulty::Hard {
        HARD_BASELINE_SPEED
    } else if oc == MoveOutcome::AteBadBerry {
        if counter_post % 2 != 0 {
            speed / 3
        } else if counter_post > 1 {
            triple_spec(speed)
        } else {
            speed
        }
    } else {
        speed
    }
}

/// What one snake's tick does to the state the two snakes share.
pub open spec fn shared_after_rel(
    pre: World,
    post: World,
    g: Grid,
    cli: Cli,
    oc: MoveOutcome,
) -> bool {
    &&& post.finished == (pre.finished || oc == MoveOutcome::Halted)
    &&& post.bad_berries == if oc == MoveOutcome::AteBadBerry {
        bump_spec(pre.bad_berries)
    } else {
        pre.bad_berries
    }
    &&& post.snake_speed == speed_after_spec(
        pre.snake_speed,
        oc,
        cli.speed_increase,
        bump_spec(pre.bad_berries),
    )
    &&& if oc == MoveOutcome::AteFood || oc == MoveOutcome::AteBadBerry {
        spawn_post(pre.food, pre.bad_berries_position, post, g, cli)
    } else {
        post.food == pre.food && post.bad_berries_position == pre.bad_berries_position
    }
    &&& post.space_count == pre.space_count
    &&& post.time_cycle == pre.time_cycle
    &&& post.first_snake_colour == pre.first_snake_colour
    &&& post.second_snake_colour == pre.second_snake_colour
    &&& post.food_colour == pre.food_colour
    &&& post.bad_berries_colour == pre.bad_berries_colour
}

/// One full forward tick of the first snake, against the cross-snake
/// collision flag `cross` taken before either snake moved.
pub open spec fn first_step_rel(pre: World, post: World, g: Grid, cli: Cli, cross: bool) -> bool {
    let oc = outcome_spec(
        g,
        pre.snake.body@,
        pre.snake.direction,
        cli.ghost_mode,
        cross,
        pre.food,
        pre.bad_berries_position,
    );
    &&& snake_step_rel(
        pre.snake,
        post.snake,
        g,
        cli.ghost_mode,
        cross,
        pre.food,
        pre.bad_berries_position,
    )
    &&& post.second_snake == pre.second_snake
    &&& shared_after_rel(pre, post, g, cli, oc)
}

/// One full forward tick of the second snake; without one it does nothing.
pub open spec fn second_step_rel(pre: World, post: World, g: Grid, cli: Cli, cross: bool) -> bool {
    match pre.second_snake {
        None => post == pre,
        Some(s2) => {
            let oc = outcome_spec(
                g,
                s2.body@,
                s2.direction,
                cli.ghost_mode,
                cross,
                pre.food,
                pre.bad_berries_position,
            );
            &&& post.snake == pre.snake
            &&& match post.second_snake {
                Some(s2_post) => snake_step_rel(
                    s2,
                    s2_post,
                    g,
                    cli.ghost_mode,
                    cross,
                    pre.food,
                    pre.bad_berries_position,
                ),
                None => false,
            }
            &&& shared_after_rel(pre, post, g, cli, oc)
        },
    }
}

/// Whether the two snakes collide: in two-player mode,
/// either head standing on the other snake's body (that body's head
/// excluded) collides; one-player games never cross-collide.
pub open spec fn cross_collision_spec(w: World, cli: Cli) -> bool {
    &&& cli.two_players_mode
    &&& match w.second_snake {
        Some(s2) => w.snake.body@.len() > 0 && s2.body@.len() > 0 && (body_hits(
            s2.body@,
            w.snake.body@.last(),
        ) || body_hits(w.snake.body@, s2.body@.last())),
        None => false,
    }
}

/// One whole forward tick of the world: gated by the pause toggle's parity,
/// the first snake moves first, then the second against the same pre-tick
/// cross-snake collision flag.
pub open spec fn update_rel(pre: World, post: World, g: Grid, cli: Cli) -> bool {
    if pre.space_count % 2 != 0 {
        post == pre
    } else {
        let cross = cross_collision_spec(pre, cli);
        if !cli.two_players_mode {
            first_step_rel(pre, post, g, cli, cross)
        } else {
            exists|mid: World|
                first_step_rel(pre, mid, g, cli, cross) && second_step_rel(mid, post, g, cli, cross)
        }
    }
}

/// What one backward-playback step leaves behind, besides the playback mode:
/// the finished flag is lifted and each playing snake rewinds one tick.
pub open spec fn return_rel(pre: World, post: World, cli: Cli) -> bool {
    &&& post.finished == false
    &&& rewind_rel(pre.snake, post.snake)
    &&& if cli.two_players_mode && pre.second_snake is Some {
        match (pre.second_snake, post.second_snake) {
            (Some(a), Some(b)) => rewind_rel(a, b),
            _ => false,
        }
    } else {
        post.second_snake == pre.second_snake
    }
    &&& post.food == pre.food
    &&& post.bad_berries_position == pre.bad_berries_position
    &&& post.bad_berries == pre.bad_berries
    &&& post.snake_speed == pre.snake_speed
    &&& post.space_count == pre.space_count
    &&& post.first_snake_colour == pre.first_snake_colour
    &&& post.second_snake_colour == pre.second_snake_colour
    &&& post.food_colour == pre.food_colour
    &&& post.bad_berries_colour == pre.bad_berries_colour
}

/// The cross-snake collision check; pure, the tick driver decides the
/// consequence.
pub fn snakes_collision_checker(world: &World, cli: &Cli) -> (r: bool)
    ensures
        r == cross_collision_spec(*world, *cli),
{
    if !cli.two_players_mode {
        return false;
    }
    match &world.second_snake {
        None => false,
        Some(s2) => {
            if world.snake.body.len() == 0 || s2.body.len() == 0 {
                return false;
            }
            let h1 = world.snake.body[world.snake.body.len() - 1];
            let h2 = s2.body[s2.body.len() - 1];
            crate::snake::hits_body(&s2.body, h1) || crate::snake::hits_body(&world.snake.body, h2)
        },
    }
}

/// Places the starting bodies: three cells centred on the grid heading East
/// for the first snake and, in two-player mode, a mirrored row two cells
/// above it heading West. Each snake's log locks the direction that would
/// reverse straight into its fresh body.
pub fn snake_generator(world: &mut World, grid: &Grid, cli: &Cli)
    requires
        grid.width / 2 >= 2,
        grid.height >= 1,
        cli.two_players_mode ==> grid.height / 2 >= 2 && (old(world).second_snake is Some),
    ensures
        final(world).snake.body@ == old(world).snake.body@ + seq![
            Position { x: (grid.width / 2 - 2) as usize, y: (grid.height / 2) as usize },
            Position { x: (grid.width / 2 - 1) as usize, y: (grid.height / 2) as usize },
            Position { x: (grid.width / 2) as usize, y: (grid.height / 2) as usize },
        ],
        final(world).snake.log == (DirectionLog { locked: Direction::West, ..old(world).snake.log }),
        final(world).snake.direction == old(world).snake.direction,
        final(world).snake.rewound == old(world).snake.rewound,
        final(world).snake.score == old(world).snake.score,
        cli.two_players_mode ==> match (old(world).second_snake, final(world).second_snake) {
            (Some(pre), Some(post)) => {
                &&& post.body@ == pre.body@ + seq![
                    Position { x: (grid.width / 2) as usize, y: (grid.height / 2 - 2) as usize },
                    Position {
                        x: (grid.width / 2 - 1) as usize,
                        y: (grid.height / 2 - 2) as usize,
                    },
                    Position {
                        x: (grid.width / 2 - 2) as usize,
                        y: (grid.height / 2 - 2) as usize,
                    },
                ]
                &&& post.log == (DirectionLog { locked: Direction::East, ..pre.log })
                &&& post.direction == pre.direction
                &&& post.rewound == pre.rewound
                &&& post.score == pre.score
            },
            _ => false,
        },
        !cli.two_players_mode ==> final(world).second_snake == old(world).second_snake,
        final(world).food == old(world).food,
        final(world).bad_berries_position == old(world).bad_berries_position,
        final(world).bad_berries == old(world).bad_berries,
        final(world).snake_speed == old(world).snake_speed,
        final(world).finished == old(world).finished,
        final(world).space_count == old(world).space_count,
        final(world).time_cycle == old(world).time_cycle,
        final(world).first_snake_colour == old(world).first_snake_colour,
        final(world).second_snake_colour == old(world).second_snake_colour,
        final(world).food_colour == old(world).food_colour,
        final(world).bad_berries_colour == old(world).bad_berries_colour,
{
    let x_middle_point = grid.width / 2;
    let y_middle_point = grid.height / 2;

    world.snake.body.push(Position { x: x_middle_point - 2, y: y_middle_point });
    world.snake.body.push(Position { x: x_middle_point - 1, y: y_middle_point });
    world.snake.body.push(Position { x: x_middle_point, y: y_middle_point });
    world.snake.log.locked = Direction::West;

    if cli.two_players_mode {
        match &mut world.second_snake {
            Some(second) => {
                second.body.push(Position { x: x_middle_point, y: y_middle_point - 2 });
                second.body.push(Position { x: x_middle_point - 1, y: y_middle_point - 2 });
                second.body.push(Position { x: x_middle_point - 2, y: y_middle_point - 2 });
                second.log.locked = Direction::East;
            },
            None => {},
        }
    }
    proof {
        assert(world.snake.body@ =~= old(world).snake.body@ + seq![
            Position { x: (grid.width / 2 - 2) as usize, y: (grid.height / 2) as usize },
            Position { x: (grid.width / 2 - 1) as usize, y: (grid.height / 2) as usize },
            Position { x: (grid.width / 2) as usize, y: (grid.height / 2) as usize },
        ]);
        if cli.two_players_mode {
            assert(match (old(world).second_snake, world.second_snake) {
                (Some(pre), Some(post)) => post.body@ =~= pre.body@ + seq![
                    Position { x: (grid.width / 2) as usize, y: (grid.height / 2 - 2) as usize },
                    Position {
                        x: (grid.width / 2 - 1) as usize,
                        y: (grid.height / 2 - 2) as usize,
                    },
                    Position {
                        x: (grid.width / 2 - 2) as usize,
                        y: (grid.height / 2 - 2) as usize,
                    },
                ],
                _ => false,
            });
        }
    }
}

/// One backward-playback step over the whole world: it lifts
/// the finished flag and replays each playing snake one tick back; with no
/// recorded history a snake stays as it is.
pub fn return_in_time(world: &mut World, cli: &Cli)
    ensures
        return_rel(*old(world), *final(world), *cli),
        final(world).time_cycle == old(world).time_cycle,
{
    if world.finished {
        world.finished = false;
    }
    world.snake.rewind();
    if cli.two_players_mode {
        match &mut world.second_snake {
            Some(second) => {
                second.rewind();
            },
            None => {},
        }
    }
}

impl World {
    pub fn new(
        snake: Snake,
        second_snake: Option<Snake>,
        food: Position,
        bad_berries_position: Option<Position>,
        bad_berries: usize,
        snake_speed: usize,
        finished: bool,
        space_count: usize,
        time_cycle: TimeCycle,
        first_snake_colour: u32,
        second_snake_colour: u32,
        food_colour: u32,
        bad_berries_colour: u32,
    ) -> (w: World)
        ensures
            w.snake == snake,
            w.second_snake == second_snake,
            w.food == food,
            w.bad_berries_position == bad_berries_position,
            w.bad_berries == bad_berries,
            w.snake_speed == snake_speed,
            w.finished == finished,
            w.space_count == space_count,
            w.time_cycle == time_cycle,
            w.first_snake_colour == first_snake_colour,
            w.second_snake_colour == second_snake_colour,
            w.food_colour == food_colour,
            w.bad_berries_colour == bad_berries_colour,
    {
        World {
            snake,
            second_snake,
            food,
            bad_berries_position,
            bad_berries,
            snake_speed,
            finished,
            space_count,
            time_cycle,
            first_snake_colour,
            second_snake_colour,
            food_colour,
            bad_berries_colour,
        }
    }

    /// Rebuilds each snake bundle empty: body, committed-direction window
    /// and playback history all go together, so no stale history can outlive
    /// the body it described.
    pub fn reset(&mut self)
        ensures
            final(self).snake.body@ == Seq::<Position>::empty(),
            final(self).snake.direction == Direction::Still,
            final(self).snake.log == (DirectionLog {
                last: Direction::Still,
                varied: false,
                locked: Direction::Still,
            }),
            final(self).snake.rewound@ == Seq::<Position>::empty(),
            final(self).snake.score == old(self).snake.score,
            old(self).second_snake is Some ==> match final(self).second_snake {
                Some(post) => {
                    &&& post.body@ == Seq::<Position>::empty()
                    &&& post.direction == Direction::Still
                    &&& post.log == (DirectionLog {
                        last: Direction::Still,
                        varied: false,
                        locked: Direction::Still,
                    })
                    &&& post.rewound@ == Seq::<Position>::empty()
                    &&& post.score == old(self).second_snake->0.score
                },
                None => false,
            },
            old(self).second_snake is None ==> (final(self).second_snake is None),
            final(self).food == old(self).food,
            final(self).bad_berries_position == old(self).bad_berries_position,
            final(self).bad_berries == old(self).bad_berries,
            final(self).snake_speed == old(self).snake_speed,
            final(self).finished == old(self).finished,
            final(self).space_count == old(self).space_count,
            final(self).time_cycle == old(self).time_cycle,
            final(self).first_snake_colour == old(self).first_snake_colour,
            final(self).second_snake_colour == old(self).second_snake_colour,
            final(self).food_colour == old(self).food_colour,
            final(self).bad_berries_colour == old(self).bad_berries_colour,
    {
        self.snake.body.clear();
        self.snake.direction = Direction::Still;
        self.snake.log = DirectionLog::new(Direction::Still, Direction::Still);
        self.snake.rewound.clear();
        match &mut self.second_snake {
            Some(second) => {
                second.body.clear();
                second.direction = Direction::Still;
                second.log = DirectionLog::new(Direction::Still, Direction::Still);
                second.rewound.clear();
            },
            None => {},
        }
    }

    /// A direction-change request for the first snake: the
    /// request also turns playback forward; it is honoured only when the
    /// committed history allows it, else the heading stays.
    pub fn direction(&mut self, requested: Direction)
        ensures
            final(self).time_cycle == TimeCycle::Forward,
            final(self).snake.direction == if old(self).snake.log.allows_spec(requested) {
                requested
            } else {
                old(self).snake.direction
            },
            final(self).snake.body == old(self).snake.body,
            final(self).snake.log == old(self).snake.log,
            final(self).snake.rewound == old(self).snake.rewound,
            final(self).snake.score == old(self).snake.score,
            final(self).second_snake == old(self).second_snake,
            final(self).food == old(self).food,
            final(self).bad_berries_position == old(self).bad_berries_position,
            final(self).bad_berries == old(self).bad_berries,
            final(self).snake_speed == old(self).snake_speed,
            final(self).finished == old(self).finished,
            final(self).space_count == old(self).space_count,
            final(self).first_snake_colour == old(self).first_snake_colour,
            final(self).second_snake_colour == old(self).second_snake_colour,
            final(self).food_colour == old(self).food_colour,
            final(self).bad_berries_colour == old(self).bad_berries_colour,
    {
        self.time_cycle = TimeCycle::Forward;
        if self.snake.log.allows(requested) {
            self.snake.direction = requested;
        }
    }

    /// A direction-change request for the second snake; without one it does
    /// nothing.
    pub fn direction_second_snake(&mut self, requested: Direction)
        ensures
            old(self).second_snake is None ==> *final(self) == *old(self),
            old(self).second_snake is Some ==> match (
                old(self).second_snake,
                final(self).second_snake,
            ) {
                (Some(pre), Some(post)) => {
                    &&& post.direction == if pre.log.allows_spec(requested) {
                        requested
                    } else {
                        pre.direction
                    }
                    &&& post.body == pre.body
                    &&& post.log == pre.log
                    &&& post.rewound == pre.rewound
                    &&& post.score == pre.score
                },
                _ => false,
            },
            final(self).snake == old(self).snake,
            final(self).food == old(self).food,
            final(self).bad_berries_position == old(self).bad_berries_position,
            final(self).bad_berries == old(self).bad_berries,
            final(self).snake_speed == old(self).snake_speed,
            final(self).finished == old(self).finished,
            final(self).space_count == old(self).space_count,
            final(self).time_cycle == old(self).time_cycle,
            final(self).first_snake_colour == old(self).first_snake_colour,
            final(self).second_snake_colour == old(self).second_snake_colour,
            final(self).food_colour == old(self).food_colour,
            final(self).bad_berries_colour == old(self).bad_berries_colour,
    {
        match &mut self.second_snake {
            Some(second) => {
                if second.log.allows(requested) {
                    second.direction = requested;
                }
            },
            None => {},
        }
    }

    /// One press of the pause key: the forward pipeline runs only while the
    /// count is even, so each press freezes or resumes it. The count wraps
    /// at the integer's top to the matching parity, so the toggle never
    /// sticks.
    pub fn toggle_pause(&mut self)
        ensures
            final(self).space_count % 2 != old(self).space_count % 2,
            final(self).snake == old(self).snake,
            final(self).second_snake == old(self).second_snake,
            final(self).food == old(self).food,
            final(self).bad_berries_position == old(self).bad_berries_position,
            final(self).bad_berries == old(self).bad_berries,
            final(self).snake_speed == old(self).snake_speed,
            final(self).finished == old(self).finished,
            final(self).time_cycle == old(self).time_cycle,
            final(self).first_snake_colour == old(self).first_snake_colour,
            final(self).second_snake_colour == old(self).second_snake_colour,
            final(self).food_colour == old(self).food_colour,
            final(self).bad_berries_colour == old(self).bad_berries_colour,
    {
        if self.space_count == usize::MAX {
            self.space_count = 0;
        } else {
            self.space_count = self.space_count + 1;
        }
    }

    /// Switches the playback mode.
    pub fn set_time_cycle(&mut self, mode: TimeCycle)
        ensures
            final(self).time_cycle == mode,
            final(self).snake == old(self).snake,
            final(self).second_snake == old(self).second_snake,
            final(self).food == old(self).food,
            final(self).bad_berries_position == old(self).bad_berries_position,
            final(self).bad_berries == old(self).bad_berries,
            final(self).snake_speed == old(self).snake_speed,
            final(self).finished == old(self).finished,
            final(self).space_count == old(self).space_count,
            final(self).first_snake_colour == old(self).first_snake_colour,
            final(self).second_snake_colour == old(self).second_snake_colour,
            final(self).food_colour == old(self).food_colour,
            final(self).bad_berries_colour == old(self).bad_berries_colour,
    {
        self.time_cycle = mode;
    }

    /// Respawns the consumables on cells no snake covers: food
    /// always, the bad berry too when the feature plays, the pair mutually
    /// distinct. Random cells are drawn first; a full scan backs them up, so
    /// the spawn fails only on a grid with no room, and then changes
    /// nothing.
    pub fn food_generator(&mut self, grid: &Grid, cli: &Cli) -> (spawned: bool)
        requires
            grid.wf(),
        ensures
            spawn_post(
                old(self).food,
                old(self).bad_berries_position,
                *final(self),
                *grid,
                *cli,
            ),
            spawned ==> grid.contains(final(self).food) && free_spec(
                final(self).food,
                final(self).snake.body@,
                second_body_view(*final(self)),
                None,
            ),
            !spawned ==> final(self).food == old(self).food && final(self).bad_berries_position
                == old(self).bad_berries_position && !room_for(
                *grid,
                old(self).snake.body@,
                second_body_view(*old(self)),
                cli.bad_berries,
            ),
            final(self).snake == old(self).snake,
            final(self).second_snake == old(self).second_snake,
            final(self).bad_berries == old(self).bad_berries,
            final(self).snake_speed == old(self).snake_speed,
            final(self).finished == old(self).finished,
            final(self).space_count == old(self).space_count,
            final(self).time_cycle == old(self).time_cycle,
            final(self).first_snake_colour == old(self).first_snake_colour,
            final(self).second_snake_colour == old(self).second_snake_colour,
            final(self).food_colour == old(self).food_colour,
            final(self).bad_berries_colour == old(self).bad_berries_colour,
    {
        let food_pick = match &self.second_snake {
            Some(second) => pick_free_cell(grid, &self.snake.body, Some(&second.body), None),
            None => pick_free_cell(grid, &self.snake.body, None, None),
        };
        let new_food = match food_pick {
            Some(f) => f,
            None => {
                return false;
            },
        };
        if cli.bad_berries {
            let berry_pick = match &self.second_snake {
                Some(second) => pick_free_cell(
                    grid,
                    &self.snake.body,
                    Some(&second.body),
                    Some(new_food),
                ),
                None => pick_free_cell(grid, &self.snake.body, None, Some(new_food)),
            };
            match berry_pick {
                Some(b) => {
                    self.food = new_food;
                    self.bad_berries_position = Some(b);
                    true
                },
                None => {
                    proof {
                        let s1 = self.snake.body@;
                        let s2 = second_body_view(*self);
                        assert(!room_for(*grid, s1, s2, true)) by {
                            if room_for(*grid, s1, s2, true) {
                                let (p, q) = choose|p: Position, q: Position|
                                    grid.contains(p) && grid.contains(q) && p != q && free_spec(
                                        p,
                                        s1,
                                        s2,
                                        None,
                                    ) && free_spec(q, s1, s2, None);
                                if p != new_food {
                                    assert(free_spec(p, s1, s2, Some(new_food)));
                                } else {
                                    assert(free_spec(q, s1, s2, Some(new_food)));
                                }
                            }
                        }
                    }
                    false
                },
            }
        } else {
            self.food = new_food;
            true
        }
    }

    /// Applies the per-world effects of one snake's tick outcome: the
    /// finished flag on a halt, the difficulty speed curve, the
    /// bad-berry counter toggle, and the consumable respawn after eating.
    fn apply_shared(&mut self, grid: &Grid, cli: &Cli, outcome: MoveOutcome)
        requires
            grid.wf(),
        ensures
            shared_after_rel(*old(self), *final(self), *grid, *cli, outcome),
            final(self).snake == old(self).snake,
            final(self).second_snake == old(self).second_snake,
    {
        match outcome {
            MoveOutcome::Halted => {
                self.finished = true;
            },
            MoveOutcome::Stayed => {},
            MoveOutcome::Shifted => {
                if cli.speed_increase == Difficulty::Hard && self.snake_speed > 0 {
                    self.snake_speed = self.snake_speed - 1;
                }
            },
            MoveOutcome::AteFood => {
                if cli.speed_increase == Difficulty::Hard {
                    self.snake_speed = HARD_BASELINE_SPEED;
                }
                let _ = self.food_generator(grid, cli);
            },
            MoveOutcome::AteBadBerry => {
                if self.bad_berries < usize::MAX {
                    self.bad_berries = self.bad_berries + 1;
                }
                if self.bad_berries % 2 != 0 {
                    self.snake_speed = self.snake_speed / 3;
                } else if self.bad_berries > 1 {
                    if self.snake_speed <= usize::MAX / 3 {
                        self.snake_speed = 3 * self.snake_speed;
                    } else {
                        self.snake_speed = usize::MAX;
                    }
                }
                let _ = self.food_generator(grid, cli);
            },
        }
    }

    /// One full forward tick of the first snake.
    pub fn snake_update(&mut self, grid: &Grid, cli: &Cli, cross: bool)
        requires
            grid.wf(),
            old(self).snake.on_grid(*grid),
        ensures
            first_step_rel(*old(self), *final(self), *grid, *cli, cross),
    {
        let food = self.food;
        let bad = self.bad_berries_position;
        let outcome = self.snake.step(grid, cli.ghost_mode, cross, food, bad);
        self.apply_shared(grid, cli, outcome);
    }

    /// One full forward tick of the second snake; without one it does
    /// nothing.
    pub fn second_snake_update(&mut self, grid: &Grid, cli: &Cli, cross: bool)
        requires
            grid.wf(),
            match old(self).second_snake {
                Some(s) => s.on_grid(*grid),
                None => true,
            },
        ensures
            second_step_rel(*old(self), *final(self), *grid, *cli, cross),
    {
        let food = self.food;
        let bad = self.bad_berries_position;
        let outcome = match &mut self.second_snake {
            Some(second) => second.step(grid, cli.ghost_mode, cross, food, bad),
            None => {
                return ;
            },
        };
        self.apply_shared(grid, cli, outcome);
    }

    /// One invocation of the forward pipeline: it fires only
    /// while the pause toggle's count is even; the cross-snake collision is
    /// taken once, before either snake moves, and both snakes move against
    /// it, the first one first.
    pub fn update(&mut self, grid: &Grid, cli: &Cli)
        requires
            grid.wf(),
            old(self).snake.on_grid(*grid),
            cli.two_players_mode ==> match old(self).second_snake {
                Some(s) => s.on_grid(*grid),
                None => false,
            },
        ensures
            update_rel(*old(self), *final(self), *grid, *cli),
    {
        if self.space_count % 2 == 0 {
            let cross = snakes_collision_checker(self, cli);
            self.snake_update(grid, cli, cross);
            if cli.two_players_mode {
                let ghost mid = *self;
                self.second_snake_update(grid, cli, cross);
                proof {
                    assert(first_step_rel(*old(self), mid, *grid, *cli, cross));
                    assert(second_step_rel(mid, *self, *grid, *cli, cross));
                }
            }
        }
    }

    /// The tick driver's mode gate: `Forward` runs the forward
    /// pipeline unless the game has finished, `Backward` replays one step
    /// and freezes on `Pause`, and `Pause` changes nothing.
    pub fn tick(&mut self, grid: &Grid, cli: &Cli)
        requires
            grid.wf(),
            old(self).time_cycle == TimeCycle::Forward && !old(self).finished ==> old(
                self,
            ).snake.on_grid(*grid) && (cli.two_players_mode ==> match old(self).second_snake {
                Some(s) => s.on_grid(*grid),
                None => false,
            }),
        ensures
            old(self).time_cycle == TimeCycle::Pause ==> *final(self) == *old(self),
            old(self).time_cycle == TimeCycle::Backward ==> return_rel(
                *old(self),
                *final(self),
                *cli,
            ) && final(self).time_cycle == TimeCycle::Pause,
            old(self).time_cycle == TimeCycle::Forward && old(self).finished ==> *final(self)
                == *old(self),
            old(self).time_cycle == TimeCycle::Forward && !old(self).finished ==> update_rel(
                *old(self),
                *final(self),
                *grid,
                *cli,
            ),
    {
        match self.time_cycle {
            TimeCycle::Pause => {},
            TimeCycle::Backward => {
                return_in_time(self, cli);
                self.time_cycle = TimeCycle::Pause;
            },
            TimeCycle::Forward => {
                if !self.finished {
                    self.update(grid, cli);
                }
            },
        }
    }
}

} // verus!
