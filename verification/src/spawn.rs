use vstd::prelude::*;
use crate::grid::{Grid, Position};
use crate::snake::body_contains;
use rand::Rng;

verus! {

/// Relies on rand's `Rng::gen_range` over `0..n` (rand 0.8): the sample lies
/// in the half-open range. The call panics only on an empty range, which the
/// precondition excludes. Nothing more is assumed of the draw.
#[verifier::external_body]
fn random_below(n: usize) -> (r: usize)
    requires
        n > 0,
    ensures
        r < n,
{
    rand::thread_rng().gen_range(0..n)
}

/// The occupancy view a spawn works against: the first snake's body, the
/// second one's when it plays, and at most one extra cell to keep clear.
pub open spec fn opt_body_view(body: Option<&Vec<Position>>) -> Option<Seq<Position>> {
    match body {
        Some(b) => Some(b@),
        None => None,
    }
}

/// Whether `p` may receive a consumable: it covers no snake cell and differs
/// from the cell `avoid` keeps clear.
pub open spec fn free_spec(
    p: Position,
    s1: Seq<Position>,
    s2: Option<Seq<Position>>,
    avoid: Option<Position>,
) -> bool {
    &&& !body_contains(s1, p)
    &&& match s2 {
        Some(b) => !body_contains(b, p),
        None => true,
    }
    &&& avoid != Some(p)
}

fn is_free(
    p: Position,
    s1: &Vec<Position>,
    s2: Option<&Vec<Position>>,
    avoid: Option<Position>,
) -> (r: bool)
    ensures
        r == free_spec(p, s1@, opt_body_view(s2), avoid),
{
    if crate::snake::contains_cell(s1, p) {
        return false;
    }
    match s2 {
        Some(b) => {
            if crate::snake::contains_cell(b, p) {
                return false;
            }
        },
        None => {},
    }
    match avoid {
        Some(a) => a != p,
        None => true,
    }
}

/// Scans the whole grid for the first free cell, row by row. Returns `None`
/// exactly when every cell is taken.
fn find_free_cell(
    grid: &Grid,
    s1: &Vec<Position>,
    s2: Option<&Vec<Position>>,
    avoid: Option<Position>,
) -> (r: Option<Position>)
    requires
        grid.wf(),
    ensures
        r is Some ==> grid.contains(r->0) && free_spec(r->0, s1@, opt_body_view(s2), avoid),
        r is None ==> forall|p: Position|
            grid.contains(p) ==> !free_spec(p, s1@, opt_body_view(s2), avoid),
{
    let mut y: usize = 0;
    while y < grid.height
        invariant
            grid.wf(),
            y <= grid.height,
            forall|p: Position|
                p.x < grid.width && p.y < y ==> !free_spec(p, s1@, opt_body_view(s2), avoid),
        decreases grid.height - y,
    {
        let mut x: usize = 0;
        while x < grid.width
            invariant
                grid.wf(),
                y < grid.height,
                x <= grid.width,
                forall|p: Position|
                    p.x < grid.width && p.y < y ==> !free_spec(p, s1@, opt_body_view(s2), avoid),
                forall|p: Position|
                    p.x < x && p.y == y ==> !free_spec(p, s1@, opt_body_view(s2), avoid),
            decreases grid.width - x,
        {
            let p = Position { x, y };
            if is_free(p, s1, s2, avoid) {
                return Some(p);
            }
            x += 1;
        }
        y += 1;
    }
    None
}

/// How many uniform draws a spawn makes before it falls back to scanning the
/// grid; the scan keeps the spawn total even on a crowded field.
pub const SPAWN_DRAWS: usize = 64;

/// Picks a free cell: first by repeated uniform draws, then, should every
/// draw land on a taken cell, by scanning. Returns `None` exactly when the
/// grid holds no free cell at all.
pub fn pick_free_cell(
    grid: &Grid,
    s1: &Vec<Position>,
    s2: Option<&Vec<Position>>,
    avoid: Option<Position>,
) -> (r: Option<Position>)
    requires
        grid.wf(),
    ensures
        r is Some ==> grid.contains(r->0) && free_spec(r->0, s1@, opt_body_view(s2), avoid),
        r is None ==> forall|p: Position|
            grid.contains(p) ==> !free_spec(p, s1@, opt_body_view(s2), avoid),
{
    let mut draws: usize = 0;
    while draws < SPAWN_DRAWS
        invariant
            grid.wf(),
        decreases SPAWN_DRAWS - draws,
    {
        let p = Position { x: random_below(grid.width), y: random_below(grid.height) };
        if is_free(p, s1, s2, avoid) {
            return Some(p);
        }
        draws += 1;
    }
    find_free_cell(grid, s1, s2, avoid)
}

} // verus!
