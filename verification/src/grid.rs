use vstd::prelude::*;
use crate::direction::Direction;

verus! {

/// One cell of the playing field. `x` grows to the East, `y` to the South;
/// the origin is the North-West corner.
#[derive(Clone, Copy, PartialEq, Eq, Structural, Debug)]
pub struct Position {
    pub x: usize,
    pub y: usize,
}

/// The bounds of the playing field. Coordinates are valid when they are
/// strictly below `width` and `height`.
#[derive(Clone, Copy, PartialEq, Eq, Structural, Debug)]
pub struct Grid {
    pub width: usize,
    pub height: usize,
}

impl Grid {
    /// A grid with no cells has no valid positions; every operation of the
    /// simulation asks for at least one cell on each axis.
    pub open spec fn wf(self) -> bool {
        self.width > 0 && self.height > 0
    }

    pub open spec fn contains(self, p: Position) -> bool {
        p.x < self.width && p.y < self.height
    }

    /// The neighbour of `p` one cell towards `d`, or `None` when that cell
    /// lies beyond the boundary. Standing `Still` stays on `p`.
    pub open spec fn step_spec(self, p: Position, d: Direction) -> Option<Position> {
        match d {
            Direction::Still => Some(p),
            Direction::North => if p.y > 0 {
                Some(Position { x: p.x, y: (p.y - 1) as usize })
            } else {
                None
            },
            Direction::South => if p.y + 1 < self.height {
                Some(Position { x: p.x, y: (p.y + 1) as usize })
            } else {
                None
            },
            Direction::East => if p.x + 1 < self.width {
                Some(Position { x: (p.x + 1) as usize, y: p.y })
            } else {
                None
            },
            Direction::West => if p.x > 0 {
                Some(Position { x: (p.x - 1) as usize, y: p.y })
            } else {
                None
            },
        }
    }

    /// The neighbour of `p` one cell towards `d` on the torus: a step over
    /// the boundary re-enters on the opposite edge.
    pub open spec fn wrap_spec(self, p: Position, d: Direction) -> Position {
        match self.step_spec(p, d) {
            Some(q) => q,
            None => match d {
                Direction::Still => p,
                Direction::North => Position { x: p.x, y: (self.height - 1) as usize },
                Direction::South => Position { x: p.x, y: 0 },
                Direction::East => Position { x: 0, y: p.y },
                Direction::West => Position { x: (self.width - 1) as usize, y: p.y },
            },
        }
    }

    pub fn step(&self, p: Position, d: Direction) -> (r: Option<Position>)
        requires
            self.contains(p),
        ensures
            r == self.step_spec(p, d),
            r is Some ==> self.contains(r->0),
    {
        match d {
            Direction::Still => Some(p),
            Direction::North => if p.y > 0 {
                Some(Position { x: p.x, y: p.y - 1 })
            } else {
                None
            },
            Direction::South => if p.y + 1 < self.height {
                Some(Position { x: p.x, y: p.y + 1 })
            } else {
                None
            },
            Direction::East => if p.x + 1 < self.width {
                Some(Position { x: p.x + 1, y: p.y })
            } else {
                None
            },
            Direction::West => if p.x > 0 {
                Some(Position { x: p.x - 1, y: p.y })
            } else {
                None
            },
        }
    }

    pub fn wrap_step(&self, p: Position, d: Direction) -> (r: Position)
        requires
            self.wf(),
            self.contains(p),
        ensures
            r == self.wrap_spec(p, d),
            self.contains(r),
    {
        match self.step(p, d) {
            Some(q) => q,
            None => match d {
                Direction::Still => p,
                Direction::North => Position { x: p.x, y: self.height - 1 },
                Direction::South => Position { x: p.x, y: 0 },
                Direction::East => Position { x: 0, y: p.y },
                Direction::West => Position { x: self.width - 1, y: p.y },
            },
        }
    }
}

} // verus!
