use vstd::prelude::*;

verus! {

/// A heading on the grid. `Still` is both the initial state and the terminal
/// state of a halted snake.
#[derive(Clone, Copy, PartialEq, Eq, Structural, Debug)]
pub enum Direction {
    Still,
    North,
    East,
    West,
    South,
}

impl Direction {
    /// The 180-degree reversal; `Still` has none and maps to itself.
    pub open spec fn opposite_spec(self) -> Direction {
        match self {
            Direction::Still => Direction::Still,
            Direction::North => Direction::South,
            Direction::South => Direction::North,
            Direction::East => Direction::West,
            Direction::West => Direction::East,
        }
    }

    pub fn opposite(self) -> (r: Direction)
        ensures
            r == self.opposite_spec(),
    {
        match self {
            Direction::Still => Direction::Still,
            Direction::North => Direction::South,
            Direction::South => Direction::North,
            Direction::East => Direction::West,
            Direction::West => Direction::East,
        }
    }
}

/// The committed-direction history of one snake, reduced to the window the
/// turn validator reads: the most recently committed direction, whether two
/// distinct directions were ever committed, and which direction stays locked
/// until then.
///
/// A freshly placed snake lies along one axis, so heading straight into its
/// own body would end the game before it began; that one direction (the
/// reversal of the spawn heading) is refused until the snake has committed
/// two distinct directions. The same rule serves every spawn orientation.
#[derive(Clone, Copy, PartialEq, Eq, Structural, Debug)]
pub struct DirectionLog {
    /// The direction committed by the most recent tick.
    pub last: Direction,
    /// Whether the committed history holds more than one distinct value.
    pub varied: bool,
    /// The direction refused while `varied` is false; `Still` locks none.
    pub locked: Direction,
}

impl DirectionLog {
    pub fn new(initial: Direction, locked: Direction) -> (log: DirectionLog)
        ensures
            log.last == initial,
            !log.varied,
            log.locked == locked,
    {
        DirectionLog { last: initial, varied: false, locked }
    }

    /// Whether the turn validator honours a request to head towards `d`:
    /// a 180-degree reversal of the last committed direction is refused, and
    /// the locked direction is refused until the history has varied.
    pub open spec fn allows_spec(self, d: Direction) -> bool {
        d != self.last.opposite_spec() && (self.varied || d != self.locked)
    }

    pub fn allows(&self, d: Direction) -> (r: bool)
        ensures
            r == self.allows_spec(d),
    {
        d != self.last.opposite() && (self.varied || d != self.locked)
    }

    /// The log after one tick commits `d`.
    pub open spec fn committed_spec(self, d: Direction) -> DirectionLog {
        DirectionLog { last: d, varied: self.varied || d != self.last, locked: self.locked }
    }

    pub fn commit(&mut self, d: Direction)
        ensures
            *final(self) == old(self).committed_spec(d),
    {
        if d != self.last {
            self.varied = true;
        }
        self.last = d;
    }
}

} // verus!
