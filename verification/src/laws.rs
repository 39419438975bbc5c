use vstd::prelude::*;
use crate::direction::{Direction, DirectionLog};
use crate::grid::{Grid, Position};
use crate::snake::{
    body_hits, next_body_spec, outcome_spec, rewind_spec, shift_spec, target_spec, MoveOutcome,
};
use crate::world::{first_step_rel, World, Cli};

verus! {

// ---------------------------------------------------------------------------
// Turn validation
// ---------------------------------------------------------------------------

/// A turn request that is the exact reversal of the last committed direction
/// is never honoured, whatever else the log holds.
pub proof fn lemma_reversal_ignored(log: DirectionLog, requested: Direction)
    requires
        requested == log.last.opposite_spec(),
    ensures
        !log.allows_spec(requested),
{
}

// ---------------------------------------------------------------------------
// Collisions
// ---------------------------------------------------------------------------

/// A tick whose landing cell is already covered by the body (its head aside)
/// halts the snake and leaves the body unchanged at the moment of detection.
pub proof fn lemma_self_collision_halts(
    g: Grid,
    body: Seq<Position>,
    d: Direction,
    ghost_mode: bool,
    food: Position,
    bad: Option<Position>,
)
    requires
        body.len() >= 1,
        d != Direction::Still,
        match target_spec(g, body.last(), d, ghost_mode) {
            Some(c) => body_hits(body, c),
            None => true,
        },
    ensures
        outcome_spec(g, body, d, ghost_mode, false, food, bad) == MoveOutcome::Halted,
        next_body_spec(g, body, d, ghost_mode, false, food, bad) == body,
{
}

/// At the world level a halt also raises the finished flag, and nothing of
/// the body survives the tick changed.
pub proof fn lemma_halt_finishes(pre: World, post: World, g: Grid, cli: Cli, cross: bool)
    requires
        first_step_rel(pre, post, g, cli, cross),
        outcome_spec(
            g,
            pre.snake.body@,
            pre.snake.direction,
            cli.ghost_mode,
            cross,
            pre.food,
            pre.bad_berries_position,
        ) == MoveOutcome::Halted,
    ensures
        post.finished,
        post.snake.body@ == pre.snake.body@,
        post.snake.direction == Direction::Still,
{
}

// ---------------------------------------------------------------------------
// Eating
// ---------------------------------------------------------------------------

/// Eating food grows the body by exactly one cell and the score by exactly
/// ten.
pub proof fn lemma_eating_grows_and_scores(pre: World, post: World, g: Grid, cli: Cli, cross: bool)
    requires
        first_step_rel(pre, post, g, cli, cross),
        outcome_spec(
            g,
            pre.snake.body@,
            pre.snake.direction,
            cli.ghost_mode,
            cross,
            pre.food,
            pre.bad_berries_position,
        ) == MoveOutcome::AteFood,
        pre.snake.score + 10 <= usize::MAX,
    ensures
        post.snake.body@.len() == pre.snake.body@.len() + 1,
        post.snake.score == pre.snake.score + 10,
{
}

// ---------------------------------------------------------------------------
// Ghost mode at the boundary
// ---------------------------------------------------------------------------

/// A snake heading East out of the right boundary re-enters at the West edge
/// of the same row when ghost mode is on, and halts with its body unchanged
/// when it is off.
pub proof fn lemma_ghost_wrap_east(
    g: Grid,
    body: Seq<Position>,
    food: Position,
    bad: Option<Position>,
)
    requires
        g.wf(),
        body.len() >= 1,
        g.contains(body.last()),
        body.last().x == g.width - 1,
        !body_hits(body, (Position { x: 0, y: body.last().y })),
        body.last() != food,
        bad != Some(body.last()),
    ensures
        outcome_spec(g, body, Direction::East, true, false, food, bad) == MoveOutcome::Shifted,
        next_body_spec(g, body, Direction::East, true, false, food, bad) == shift_spec(
            body,
            (Position { x: 0, y: body.last().y }),
        ),
        outcome_spec(g, body, Direction::East, false, false, food, bad) == MoveOutcome::Halted,
        next_body_spec(g, body, Direction::East, false, false, food, bad) == body,
{
}

// ---------------------------------------------------------------------------
// Straight runs
// ---------------------------------------------------------------------------

/// The unit offset of a heading along the x axis.
pub open spec fn offset_x(d: Direction) -> int {
    match d {
        Direction::East => 1,
        Direction::West => -1,
        _ => 0,
    }
}

/// The unit offset of a heading along the y axis.
pub open spec fn offset_y(d: Direction) -> int {
    match d {
        Direction::South => 1,
        Direction::North => -1,
        _ => 0,
    }
}

/// A moving heading: every direction but `Still`.
pub open spec fn cardinal(d: Direction) -> bool {
    d != Direction::Still
}

/// The cell `n` steps from `p` towards `d`.
pub open spec fn cell_at(p: Position, d: Direction, n: int) -> Position {
    Position { x: (p.x + n * offset_x(d)) as usize, y: (p.y + n * offset_y(d)) as usize }
}

/// The body lies in one line along `d`: each cell one step behind the next,
/// the head last. The equations are over the unbounded integers, so a body
/// that only seems straight through coordinate wraparound does not qualify.
pub open spec fn straight_body(body: Seq<Position>, d: Direction) -> bool {
    forall|i: int|
        0 <= i < body.len() - 1 ==> body[i + 1].x == (#[trigger] body[i]).x + offset_x(d) && body[i
            + 1].y == body[i].y + offset_y(d)
}

/// The body after `n` plain forward ticks (no ghost mode, no cross-snake
/// collision).
pub open spec fn straight_run_spec(
    g: Grid,
    body: Seq<Position>,
    d: Direction,
    food: Position,
    bad: Option<Position>,
    n: nat,
) -> Seq<Position>
    decreases n,
{
    if n == 0 {
        body
    } else {
        straight_run_spec(
            g,
            next_body_spec(g, body, d, false, false, food, bad),
            d,
            food,
            bad,
            (n - 1) as nat,
        )
    }
}

/// Along a straight body, coordinates follow the heading exactly: cell `j`
/// stands `j - i` steps beyond cell `i`.
proof fn lemma_straight_coords(body: Seq<Position>, d: Direction, i: int, j: int)
    requires
        straight_body(body, d),
        0 <= i <= j < body.len(),
    ensures
        body[j].x == body[i].x + (j - i) * offset_x(d),
        body[j].y == body[i].y + (j - i) * offset_y(d),
    decreases j - i,
{
    if j > i {
        lemma_straight_coords(body, d, i, j - 1);
        assert(body[j].x == body[j - 1].x + offset_x(d));
        assert(body[j].y == body[j - 1].y + offset_y(d));
        assert((j - i) * offset_x(d) == (j - 1 - i) * offset_x(d) + offset_x(d)) by (nonlinear_arith);
        assert((j - i) * offset_y(d) == (j - 1 - i) * offset_y(d) + offset_y(d)) by (nonlinear_arith);
    } else {
        assert((j - i) * offset_x(d) == 0) by (nonlinear_arith)
            requires j == i;
        assert((j - i) * offset_y(d) == 0) by (nonlinear_arith)
            requires j == i;
    }
}

/// One plain tick of a straight snake on an open path: it shifts, every cell
/// moves one step along the heading, and the body stays straight.
proof fn lemma_straight_tick(
    g: Grid,
    body: Seq<Position>,
    d: Direction,
    food: Position,
    bad: Option<Position>,
)
    requires
        g.wf(),
        cardinal(d),
        straight_body(body, d),
        body.len() >= 1,
        forall|k: int| 0 <= k < body.len() ==> g.contains(#[trigger] body[k]),
        0 <= body.last().x + offset_x(d) < g.width,
        0 <= body.last().y + offset_y(d) < g.height,
        body.last() != food,
        bad != Some(body.last()),
    ensures
        outcome_spec(g, body, d, false, false, food, bad) == MoveOutcome::Shifted,
        next_body_spec(g, body, d, false, false, food, bad) == shift_spec(
            body,
            cell_at(body.last(), d, 1),
        ),
        straight_body(next_body_spec(g, body, d, false, false, food, bad), d),
        next_body_spec(g, body, d, false, false, food, bad).len() == body.len(),
        forall|i: int|
            0 <= i < body.len() ==> #[trigger] next_body_spec(
                g,
                body,
                d,
                false,
                false,
                food,
                bad,
            )[i] == cell_at(body[i], d, 1),
        forall|k: int|
            0 <= k < body.len() ==> g.contains(
                #[trigger] next_body_spec(g, body, d, false, false, food, bad)[k],
            ),
{
    let head = body.last();
    let c = cell_at(head, d, 1);
    assert(g.contains(c));
    assert(g.step_spec(head, d) == Some(c));
    assert(target_spec(g, head, d, false) == Some(c));

    // the landing cell lies one step beyond the head, so no body cell covers
    // it: every body cell stands zero or more steps behind the head
    assert forall|i: int| 0 <= i < body.len() - 1 implies body[i] != c by {
        lemma_straight_coords(body, d, i, body.len() - 1);
        if body[i] == c {
            assert(head.x == body[i].x + (body.len() - 1 - i) * offset_x(d));
            assert(head.y == body[i].y + (body.len() - 1 - i) * offset_y(d));
            assert(c.x == head.x + offset_x(d) && c.y == head.y + offset_y(d));
            assert((body.len() - 1 - i) * offset_x(d) + offset_x(d) == 0);
            assert((body.len() - 1 - i) * offset_y(d) + offset_y(d) == 0);
            if offset_x(d) != 0 {
                assert(false) by (nonlinear_arith)
                    requires
                        offset_x(d) == 1 || offset_x(d) == -1,
                        body.len() - 1 - i >= 0,
                        (body.len() - 1 - i) * offset_x(d) + offset_x(d) == 0;
            } else {
                assert(offset_y(d) != 0);
                assert(false) by (nonlinear_arith)
                    requires
                        offset_y(d) == 1 || offset_y(d) == -1,
                        body.len() - 1 - i >= 0,
                        (body.len() - 1 - i) * offset_y(d) + offset_y(d) == 0;
            }
        }
    }
    assert(!body_hits(body, c));
    assert(outcome_spec(g, body, d, false, false, food, bad) == MoveOutcome::Shifted);

    let next = next_body_spec(g, body, d, false, false, food, bad);
    assert(next =~= shift_spec(body, c));
    assert forall|i: int| 0 <= i < body.len() implies #[trigger] next[i] == cell_at(
        body[i],
        d,
        1,
    ) by {
        if i < body.len() - 1 {
            assert(next[i] == body[i + 1]);
            assert(body[i + 1].x == body[i].x + offset_x(d));
            assert(body[i + 1].y == body[i].y + offset_y(d));
        } else {
            assert(next[i] == c);
        }
    }
    assert forall|i: int| 0 <= i < next.len() - 1 implies #[trigger] next[i + 1].x == next[i].x
        + offset_x(d) && next[i + 1].y == next[i].y + offset_y(d) by {
        if i + 1 < body.len() - 1 {
            assert(next[i] == body[i + 1] && next[i + 1] == body[i + 2]);
            assert(body[i + 2].x == body[i + 1].x + offset_x(d));
            assert(body[i + 2].y == body[i + 1].y + offset_y(d));
        } else {
            assert(next[i] == body[body.len() - 1] && next[i + 1] == c);
        }
    }
}

/// Advancing a straight snake `n` ticks over an open, unobstructed path
/// shifts every body cell by `n` unit steps of the heading and keeps the
/// body's length. The path is open when the head's cells up to step `n` stay
/// on the grid and no consumable lies on the cells the head leaves from.
pub proof fn lemma_straight_run(
    g: Grid,
    body: Seq<Position>,
    d: Direction,
    food: Position,
    bad: Option<Position>,
    n: nat,
)
    requires
        g.wf(),
        cardinal(d),
        straight_body(body, d),
        body.len() >= 1,
        forall|k: int| 0 <= k < body.len() ==> g.contains(#[trigger] body[k]),
        0 <= body.last().x + n * offset_x(d) < g.width,
        0 <= body.last().y + n * offset_y(d) < g.height,
        forall|k: int| 0 <= k < n ==> cell_at(body.last(), d, k) != food,
        forall|k: int| 0 <= k < n ==> bad != Some(cell_at(body.last(), d, k)),
    ensures
        straight_run_spec(g, body, d, food, bad, n).len() == body.len(),
        forall|i: int|
            0 <= i < body.len() ==> #[trigger] straight_run_spec(g, body, d, food, bad, n)[i]
                == cell_at(body[i], d, n as int),
    decreases n,
{
    let run = straight_run_spec(g, body, d, food, bad, n);
    if n == 0 {
        assert forall|i: int| 0 <= i < body.len() implies #[trigger] run[i] == cell_at(
            body[i],
            d,
            0,
        ) by {
            assert(0 * offset_x(d) == 0) by (nonlinear_arith);
            assert(0 * offset_y(d) == 0) by (nonlinear_arith);
        }
    } else {
        let head = body.last();
        // the first step stays on the grid: its offset lies between zero and
        // the full run's offset
        assert(offset_x(d) == 1 ==> 1 <= n * offset_x(d)) by (nonlinear_arith)
            requires n >= 1;
        assert(offset_x(d) == -1 ==> n * offset_x(d) <= -1) by (nonlinear_arith)
            requires n >= 1;
        assert(offset_y(d) == 1 ==> 1 <= n * offset_y(d)) by (nonlinear_arith)
            requires n >= 1;
        assert(offset_y(d) == -1 ==> n * offset_y(d) <= -1) by (nonlinear_arith)
            requires n >= 1;
        assert(0 <= head.x + offset_x(d) < g.width);
        assert(0 <= head.y + offset_y(d) < g.height);
        assert(cell_at(head, d, 0) == head);
        lemma_straight_tick(g, body, d, food, bad);
        let next = next_body_spec(g, body, d, false, false, food, bad);
        let next_head = next.last();
        assert(next_head == cell_at(head, d, 1));
        assert(next_head.x == head.x + offset_x(d) && next_head.y == head.y + offset_y(d));
        assert(next_head.x + (n - 1) * offset_x(d) == head.x + n * offset_x(d)) by (nonlinear_arith)
            requires next_head.x == head.x + offset_x(d);
        assert(next_head.y + (n - 1) * offset_y(d) == head.y + n * offset_y(d)) by (nonlinear_arith)
            requires next_head.y == head.y + offset_y(d);
        assert forall|k: int| 0 <= k < n - 1 implies cell_at(next_head, d, k) != food && bad
            != Some(cell_at(next_head, d, k)) by {
            assert(next_head.x + k * offset_x(d) == head.x + (k + 1) * offset_x(d))
                by (nonlinear_arith)
                requires next_head.x == head.x + offset_x(d);
            assert(next_head.y + k * offset_y(d) == head.y + (k + 1) * offset_y(d))
                by (nonlinear_arith)
                requires next_head.y == head.y + offset_y(d);
            assert(cell_at(next_head, d, k) == cell_at(head, d, k + 1));
        }
        lemma_straight_run(g, next, d, food, bad, (n - 1) as nat);
        assert forall|i: int| 0 <= i < body.len() implies #[trigger] run[i] == cell_at(
            body[i],
            d,
            n as int,
        ) by {
            assert(run[i] == straight_run_spec(g, next, d, food, bad, (n - 1) as nat)[i]);
            assert(run[i] == cell_at(next[i], d, n - 1));
            assert(next[i] == cell_at(body[i], d, 1));
            assert(g.contains(next[i]) && g.contains(body[i]));
            assert(next[i].x == body[i].x + offset_x(d) && next[i].y == body[i].y + offset_y(d))
                by {
                if i < body.len() - 1 {
                    assert(next[i] == body[i + 1]);
                    assert(body[i + 1].x == body[i].x + offset_x(d));
                    assert(body[i + 1].y == body[i].y + offset_y(d));
                } else {
                    assert(next[i] == cell_at(head, d, 1));
                    assert(0 <= head.x + offset_x(d) < g.width);
                    assert(0 <= head.y + offset_y(d) < g.height);
                }
            }
            assert(next[i].x + (n - 1) * offset_x(d) == body[i].x + n * offset_x(d))
                by (nonlinear_arith)
                requires next[i].x == body[i].x + offset_x(d);
            assert(next[i].y + (n - 1) * offset_y(d) == body[i].y + n * offset_y(d))
                by (nonlinear_arith)
                requires next[i].y == body[i].y + offset_y(d);
            assert(cell_at(next[i], d, n - 1) == cell_at(body[i], d, n as int));
        }
    }
}

// ---------------------------------------------------------------------------
// Backward playback
// ---------------------------------------------------------------------------

/// The pair a forward shift tick works on: the body, and the stack of
/// vacated tail cells.
pub open spec fn forward_tick_spec(
    body: Seq<Position>,
    stack: Seq<Position>,
    c: Position,
) -> (Seq<Position>, Seq<Position>) {
    (shift_spec(body, c), stack.push(body[0]))
}

/// The body and stack after one forward shift tick per entered cell of `cs`,
/// oldest first.
pub open spec fn forward_run_spec(
    body: Seq<Position>,
    stack: Seq<Position>,
    cs: Seq<Position>,
) -> (Seq<Position>, Seq<Position>)
    decreases cs.len(),
{
    if cs.len() == 0 {
        (body, stack)
    } else {
        let t = forward_tick_spec(body, stack, cs[0]);
        forward_run_spec(t.0, t.1, cs.drop_first())
    }
}

/// One backward-playback step on the pair; with an empty stack or body it
/// changes nothing.
pub open spec fn rewind_tick_spec(body: Seq<Position>, stack: Seq<Position>) -> (
    Seq<Position>,
    Seq<Position>,
) {
    if stack.len() == 0 || body.len() == 0 {
        (body, stack)
    } else {
        (rewind_spec(body, stack.last()), stack.drop_last())
    }
}

/// `k` backward-playback steps on the pair.
pub open spec fn rewind_run_spec(body: Seq<Position>, stack: Seq<Position>, k: nat) -> (
    Seq<Position>,
    Seq<Position>,
)
    decreases k,
{
    if k == 0 {
        (body, stack)
    } else {
        let t = rewind_tick_spec(body, stack);
        rewind_run_spec(t.0, t.1, (k - 1) as nat)
    }
}

/// A forward run takes its cells one at a time: running through `cs` and
/// then one more cell is one more tick after running through `cs`.
pub proof fn lemma_forward_snoc(
    body: Seq<Position>,
    stack: Seq<Position>,
    cs: Seq<Position>,
    c: Position,
)
    ensures
        forward_run_spec(body, stack, cs.push(c)) == {
            let t = forward_run_spec(body, stack, cs);
            forward_tick_spec(t.0, t.1, c)
        },
    decreases cs.len(),
{
    let whole = cs.push(c);
    if cs.len() == 0 {
        assert(whole[0] == c);
        assert(whole.drop_first() =~= Seq::<Position>::empty());
        let t = forward_tick_spec(body, stack, c);
        assert(forward_run_spec(body, stack, whole) == forward_run_spec(
            t.0,
            t.1,
            whole.drop_first(),
        ));
        assert(forward_run_spec(t.0, t.1, whole.drop_first()) == t);
        assert(forward_run_spec(body, stack, cs) == (body, stack));
    } else {
        assert(whole[0] == cs[0]);
        assert(whole.drop_first() =~= cs.drop_first().push(c));
        let t = forward_tick_spec(body, stack, cs[0]);
        assert(forward_run_spec(body, stack, whole) == forward_run_spec(
            t.0,
            t.1,
            cs.drop_first().push(c),
        ));
        lemma_forward_snoc(t.0, t.1, cs.drop_first(), c);
        assert(forward_run_spec(body, stack, cs) == forward_run_spec(t.0, t.1, cs.drop_first()));
    }
}

/// Forward shift ticks keep the body's length.
pub proof fn lemma_forward_len(body: Seq<Position>, stack: Seq<Position>, cs: Seq<Position>)
    requires
        body.len() >= 1,
    ensures
        forward_run_spec(body, stack, cs).0.len() == body.len(),
    decreases cs.len(),
{
    if cs.len() > 0 {
        let t = forward_tick_spec(body, stack, cs[0]);
        lemma_forward_len(t.0, t.1, cs.drop_first());
    }
}

/// One backward step exactly undoes one forward shift tick.
pub proof fn lemma_rewind_undoes_tick(body: Seq<Position>, stack: Seq<Position>, c: Position)
    requires
        body.len() >= 1,
    ensures
        rewind_tick_spec(forward_tick_spec(body, stack, c).0, forward_tick_spec(body, stack, c).1)
            == (body, stack),
{
    let t = forward_tick_spec(body, stack, c);
    assert(rewind_spec(t.0, body[0]) =~= body);
    assert(t.1.drop_last() =~= stack);
}

/// Rewind idempotence bound, first half: after any run of forward shift
/// ticks, as many backward steps restore the body and the stack exactly as
/// they stood before the run.
pub proof fn lemma_rewind_restores(body: Seq<Position>, stack: Seq<Position>, cs: Seq<Position>)
    requires
        body.len() >= 1,
    ensures
        rewind_run_spec(
            forward_run_spec(body, stack, cs).0,
            forward_run_spec(body, stack, cs).1,
            cs.len(),
        ) == (body, stack),
    decreases cs.len(),
{
    if cs.len() > 0 {
        let cs0 = cs.drop_last();
        let c = cs.last();
        assert(cs0.push(c) =~= cs);
        lemma_forward_snoc(body, stack, cs0, c);
        let mid = forward_run_spec(body, stack, cs0);
        lemma_forward_len(body, stack, cs0);
        lemma_rewind_undoes_tick(mid.0, mid.1, c);
        let run = forward_run_spec(body, stack, cs);
        assert(rewind_run_spec(run.0, run.1, cs.len()) == rewind_run_spec(
            rewind_tick_spec(run.0, run.1).0,
            rewind_tick_spec(run.0, run.1).1,
            (cs.len() - 1) as nat,
        ));
        lemma_rewind_restores(body, stack, cs0);
    }
}

/// Rewind idempotence bound, second half: once the stack is empty every
/// further backward step is a no-op, so one more rewind than forward ticks
/// changes nothing.
pub proof fn lemma_rewind_empty_noop(body: Seq<Position>, k: nat)
    ensures
        rewind_run_spec(body, Seq::<Position>::empty(), k) == (body, Seq::<Position>::empty()),
    decreases k,
{
    if k > 0 {
        lemma_rewind_empty_noop(body, (k - 1) as nat);
    }
}

/// A snake's forward tick with a `Shifted` outcome is exactly one forward
/// tick of the playback pair: the body shifts and the vacated tail cell goes
/// on the stack.
pub proof fn lemma_step_is_forward_tick(
    pre: crate::snake::Snake,
    post: crate::snake::Snake,
    g: Grid,
    ghost_mode: bool,
    cross: bool,
    food: Position,
    bad: Option<Position>,
)
    requires
        pre.body@.len() >= 1,
        crate::snake::snake_step_rel(pre, post, g, ghost_mode, cross, food, bad),
        outcome_spec(g, pre.body@, pre.direction, ghost_mode, cross, food, bad)
            == MoveOutcome::Shifted,
    ensures
        (post.body@, post.rewound@) == forward_tick_spec(
            pre.body@,
            pre.rewound@,
            target_spec(g, pre.body@.last(), pre.direction, ghost_mode)->0,
        ),
{
}

/// A snake's backward-playback step is exactly one backward step of the
/// playback pair.
pub proof fn lemma_rewind_is_rewind_tick(pre: crate::snake::Snake, post: crate::snake::Snake)
    requires
        crate::snake::rewind_rel(pre, post),
    ensures
        (post.body@, post.rewound@) == rewind_tick_spec(pre.body@, pre.rewound@),
{
}

} // verus!
