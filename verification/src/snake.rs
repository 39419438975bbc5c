use vstd::prelude::*;
use crate::direction::{Direction, DirectionLog};
use crate::grid::{Grid, Position};

verus! {

/// Whether `p` occurs anywhere in `body`.
pub open spec fn body_contains(body: Seq<Position>, p: Position) -> bool {
    exists|i: int| 0 <= i < body.len() && body[i] == p
}

/// Whether `p` occurs in `body` with the head (the last cell) excluded.
pub open spec fn body_hits(body: Seq<Position>, p: Position) -> bool {
    exists|i: int| 0 <= i < body.len() - 1 && body[i] == p
}

/// The body after a plain move: the oldest tail cell is dropped and the new
/// head appended.
pub open spec fn shift_spec(body: Seq<Position>, new_head: Position) -> Seq<Position> {
    body.drop_first().push(new_head)
}

/// The body after an eating move: nothing is dropped, the new head appended.
pub open spec fn grow_spec(body: Seq<Position>, new_head: Position) -> Seq<Position> {
    body.push(new_head)
}

/// The body after one backward-playback step: the head is dropped and the
/// replayed cell `old_tail` becomes the new tail.
pub open spec fn rewind_spec(body: Seq<Position>, old_tail: Position) -> Seq<Position> {
    seq![old_tail] + body.drop_last()
}

/// Where the head lands when it heads towards `d`: the in-bounds neighbour,
/// the wrapped cell when ghost mode turns the field into a torus, or `None`
/// when the boundary blocks the move.
pub open spec fn target_spec(g: Grid, head: Position, d: Direction, ghost_mode: bool) -> Option<
    Position,
> {
    match g.step_spec(head, d) {
        Some(q) => Some(q),
        None => if ghost_mode {
            Some(g.wrap_spec(head, d))
        } else {
            None
        },
    }
}

/// What one forward tick did to a snake.
#[derive(Clone, Copy, PartialEq, Eq, Structural, Debug)]
pub enum MoveOutcome {
    /// The heading was `Still`: no cell changed.
    Stayed,
    /// A plain move: the tail cell was vacated and a new head entered.
    Shifted,
    /// The head stood on the food cell: the body grew by the new head.
    AteFood,
    /// The head stood on the bad-berry cell: the body grew by the new head.
    AteBadBerry,
    /// The move was blocked or collided: the snake halted, body unchanged.
    Halted,
}

/// The outcome one forward tick must produce from the pre-tick state.
/// `cross` is the cross-snake collision flag taken at the start of the
/// whole tick, before either snake moved.
pub open spec fn outcome_spec(
    g: Grid,
    body: Seq<Position>,
    d: Direction,
    ghost_mode: bool,
    cross: bool,
    food: Position,
    bad: Option<Position>,
) -> MoveOutcome
    recommends
        body.len() >= 1,
{
    if d == Direction::Still {
        MoveOutcome::Stayed
    } else {
        match target_spec(g, body.last(), d, ghost_mode) {
            None => MoveOutcome::Halted,
            Some(c) => if cross || body_hits(body, c) {
                MoveOutcome::Halted
            } else if body.last() == food {
                MoveOutcome::AteFood
            } else if bad == Some(body.last()) {
                MoveOutcome::AteBadBerry
            } else {
                MoveOutcome::Shifted
            },
        }
    }
}

/// The body one forward tick must leave behind.
pub open spec fn next_body_spec(
    g: Grid,
    body: Seq<Position>,
    d: Direction,
    ghost_mode: bool,
    cross: bool,
    food: Position,
    bad: Option<Position>,
) -> Seq<Position>
    recommends
        body.len() >= 1,
{
    match outcome_spec(g, body, d, ghost_mode, cross, food, bad) {
        MoveOutcome::Stayed => body,
        MoveOutcome::Halted => body,
        MoveOutcome::Shifted => shift_spec(
            body,
            target_spec(g, body.last(), d, ghost_mode)->0,
        ),
        MoveOutcome::AteFood => grow_spec(body, target_spec(g, body.last(), d, ghost_mode)->0),
        MoveOutcome::AteBadBerry => grow_spec(
            body,
            target_spec(g, body.last(), d, ghost_mode)->0,
        ),
    }
}

/// The eating reward added to a score, saturating at the integer's top.
pub open spec fn score_after_spec(score: usize, outcome: MoveOutcome) -> usize {
    if outcome == MoveOutcome::AteFood || outcome == MoveOutcome::AteBadBerry {
        if score <= usize::MAX - 10 {
            (score + 10) as usize
        } else {
            usize::MAX
        }
    } else {
        score
    }
}

/// What one forward tick does to one snake's bundle, as a relation between
/// the pre-tick and post-tick state.
pub open spec fn snake_step_rel(
    pre: Snake,
    post: Snake,
    g: Grid,
    ghost_mode: bool,
    cross: bool,
    food: Position,
    bad: Option<Position>,
) -> bool {
    let oc = outcome_spec(g, pre.body@, pre.direction, ghost_mode, cross, food, bad);
    let committed = if oc == MoveOutcome::Halted {
        Direction::Still
    } else {
        pre.direction
    };
    &&& post.body@ == next_body_spec(g, pre.body@, pre.direction, ghost_mode, cross, food, bad)
    &&& post.direction == committed
    &&& post.log == pre.log.committed_spec(committed)
    &&& post.rewound@ == if oc == MoveOutcome::Shifted {
        pre.rewound@.push(pre.body@[0])
    } else {
        pre.rewound@
    }
    &&& post.score == score_after_spec(pre.score, oc)
}

/// What one backward-playback step does to one snake's bundle.
pub open spec fn rewind_rel(pre: Snake, post: Snake) -> bool {
    if pre.rewound@.len() == 0 || pre.body@.len() == 0 {
        post == pre
    } else {
        &&& post.body@ == rewind_spec(pre.body@, pre.rewound@.last())
        &&& post.rewound@ == pre.rewound@.drop_last()
        &&& post.direction == pre.direction
        &&& post.log == pre.log
        &&& post.score == pre.score
    }
}

/// Whether `p` occurs anywhere in the body held by `body`.
pub fn contains_cell(body: &Vec<Position>, p: Position) -> (r: bool)
    ensures
        r == body_contains(body@, p),
{
    let mut i: usize = 0;
    while i < body.len()
        invariant
            i <= body@.len(),
            forall|j: int| 0 <= j < i ==> body@[j] != p,
        decreases body@.len() - i,
    {
        if body[i] == p {
            return true;
        }
        i += 1;
    }
    false
}

/// Whether `p` occurs in the body held by `body`, head excluded.
pub fn hits_body(body: &Vec<Position>, p: Position) -> (r: bool)
    ensures
        r == body_hits(body@, p),
{
    if body.len() == 0 {
        return false;
    }
    let mut i: usize = 0;
    while i < body.len() - 1
        invariant
            body@.len() >= 1,
            i <= body@.len() - 1,
            forall|j: int| 0 <= j < i ==> body@[j] != p,
        decreases body@.len() - 1 - i,
    {
        if body[i] == p {
            return true;
        }
        i += 1;
    }
    false
}

/// The state bundle of one snake: its ordered body (head last), its current
/// heading, the committed-direction window, the stack of vacated tail cells
/// that backward playback replays, and its score.
pub struct Snake {
    pub body: Vec<Position>,
    pub direction: Direction,
    pub log: DirectionLog,
    pub rewound: Vec<Position>,
    pub score: usize,
}

impl Snake {
    pub fn new(body: Vec<Position>, direction: Direction, log: DirectionLog) -> (s: Snake)
        ensures
            s.body == body,
            s.direction == direction,
            s.log == log,
            s.rewound@ == Seq::<Position>::empty(),
            s.score == 0,
    {
        Snake { body, direction, log, rewound: Vec::new(), score: 0 }
    }

    pub open spec fn head_spec(self) -> Position {
        self.body@.last()
    }

    /// A snake the tick driver may move: it has a head and the head lies on
    /// the grid.
    pub open spec fn on_grid(self, g: Grid) -> bool {
        self.body@.len() >= 1 && g.contains(self.head_spec())
    }

    /// One forward tick of this snake alone: move, grow or halt, push the
    /// vacated cell on a plain move, add the eating score, and commit the
    /// direction the tick produced. The shared per-world effects (speed,
    /// bad-berry counter, consumable respawn, the finished flag) are the
    /// caller's.
    pub fn step(
        &mut self,
        grid: &Grid,
        ghost_mode: bool,
        cross: bool,
        food: Position,
        bad: Option<Position>,
    ) -> (outcome: MoveOutcome)
        requires
            grid.wf(),
            old(self).on_grid(*grid),
        ensures
            outcome == outcome_spec(
                *grid,
                old(self).body@,
                old(self).direction,
                ghost_mode,
                cross,
                food,
                bad,
            ),
            snake_step_rel(*old(self), *final(self), *grid, ghost_mode, cross, food, bad),
    {
        if self.direction == Direction::Still {
            self.log.commit(Direction::Still);
            return MoveOutcome::Stayed;
        }
        let head = self.body[self.body.len() - 1];
        let target = match grid.step(head, self.direction) {
            Some(c) => Some(c),
            None => if ghost_mode {
                Some(grid.wrap_step(head, self.direction))
            } else {
                None
            },
        };
        match target {
            None => {
                self.direction = Direction::Still;
                self.log.commit(Direction::Still);
                MoveOutcome::Halted
            },
            Some(c) => {
                if cross || hits_body(&self.body, c) {
                    self.direction = Direction::Still;
                    self.log.commit(Direction::Still);
                    MoveOutcome::Halted
                } else if head == food {
                    self.body.push(c);
                    self.add_score();
                    let d = self.direction;
                    self.log.commit(d);
                    MoveOutcome::AteFood
                } else if (match bad {
                    Some(b) => b == head,
                    None => false,
                }) {
                    self.body.push(c);
                    self.add_score();
                    let d = self.direction;
                    self.log.commit(d);
                    MoveOutcome::AteBadBerry
                } else {
                    let vacated = self.body.remove(0);
                    self.body.push(c);
                    self.rewound.push(vacated);
                    let d = self.direction;
                    self.log.commit(d);
                    MoveOutcome::Shifted
                }
            },
        }
    }

    /// Adds the fixed eating reward, saturating at the integer's top instead
    /// of overflowing.
    fn add_score(&mut self)
        ensures
            final(self).score == if old(self).score <= usize::MAX - 10 {
                (old(self).score + 10) as usize
            } else {
                usize::MAX
            },
            final(self).body == old(self).body,
            final(self).direction == old(self).direction,
            final(self).log == old(self).log,
            final(self).rewound == old(self).rewound,
    {
        if self.score <= usize::MAX - 10 {
            self.score = self.score + 10;
        } else {
            self.score = usize::MAX;
        }
    }

    /// One backward-playback step: pops the most recently vacated cell and
    /// rebuilds the body of the previous tick. With no recorded history (or
    /// no body) it is a no-op.
    pub fn rewind(&mut self)
        ensures
            rewind_rel(*old(self), *final(self)),
    {
        if self.rewound.len() == 0 || self.body.len() == 0 {
            return ;
        }
        let replayed = match self.rewound.pop() {
            Some(p) => p,
            None => {
                return ;
            },
        };
        let _ = self.body.pop();
        self.body.insert(0, replayed);
        proof {
            assert(self.body@ =~= rewind_spec(old(self).body@, old(self).rewound@.last()));
        }
    }
}

} // verus!
