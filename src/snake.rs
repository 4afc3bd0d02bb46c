//! The snake: its tracked positions (head first) and its rendered segments.

use vstd::prelude::*;
use crate::food::EatFoodEvent;
use crate::grid::{can_step, get_next_position, step, Pos, SnakeDirection};

verus! {

/// Where a new snake starts, on both axes.
pub const START: i64 = 250;

/// The tracked body: one position per segment, head first, tail last.
pub struct Snake {
    pub body: Vec<Pos>,
}

/// A rendered body segment. Every segment carries the body marker; `head` is
/// the head marker.
#[derive(Clone, Copy, Debug, PartialEq, Eq, Structural)]
pub struct Segment {
    pub pos: Pos,
    pub head: bool,
}

/// The rendered segments agree with the tracked body: one segment per
/// position, in the same order, and the head marker on the first one only.
pub open spec fn well_formed(body: Seq<Pos>, segments: Seq<Segment>) -> bool {
    &&& body.len() >= 1
    &&& segments.len() == body.len()
    &&& forall|i: int|
        0 <= i < segments.len() ==> (#[trigger] segments[i]).pos == body[i] && (segments[i].head
            <==> i == 0)
}

/// The body after one movement tick in direction `d`: a new head one cell
/// ahead, the tail dropped.
pub open spec fn moved(body: Seq<Pos>, d: SnakeDirection) -> Seq<Pos> {
    seq![step(body[0], d)] + body.drop_last()
}

/// The body after a movement tick for each direction of `ds`, in order.
pub open spec fn moves(body: Seq<Pos>, ds: Seq<SnakeDirection>) -> Seq<Pos>
    decreases ds.len(),
{
    if ds.len() == 0 {
        body
    } else {
        moved(moves(body, ds.drop_last()), ds.last())
    }
}

impl Snake {
    pub open spec fn view(&self) -> Seq<Pos> {
        self.body@
    }
}

/// A new snake of one segment at the start position, carrying both markers.
pub fn snake_spawn() -> (r: (Snake, Vec<Segment>))
    ensures
        r.0@ == seq![Pos { x: START, y: START }],
        r.1@ == seq![Segment { pos: Pos { x: START, y: START }, head: true }],
        well_formed(r.0@, r.1@),
{
    let start = Pos { x: START, y: START };
    let segments = vec![Segment { pos: start, head: true }];
    let snake = Snake { body: vec![start] };
    assert(snake@ == seq![start]);
    assert(segments@ == seq![Segment { pos: start, head: true }]);
    (snake, segments)
}

/// One movement tick: the tail segment is moved one cell ahead of the head in
/// `direction` and takes over the head marker.
pub fn snake_move(snake: &mut Snake, segments: &mut Vec<Segment>, direction: SnakeDirection)
    requires
        well_formed(old(snake)@, old(segments)@),
        can_step(old(snake)@[0]),
    ensures
        final(snake)@ == moved(old(snake)@, direction),
        well_formed(final(snake)@, final(segments)@),
{
    let ghost body0 = snake@;
    let next = get_next_position(snake.body[0], direction);
    if segments.len() > 1 {
        let mut old_head = segments[0];
        old_head.head = false;
        segments.set(0, old_head);
    }
    let mut tail = segments[segments.len() - 1];
    segments.pop();
    tail.pos = next;
    tail.head = true;
    segments.insert(0, tail);
    snake.body.pop();
    snake.body.insert(0, next);
    assert(snake@ =~= moved(body0, direction));
}

/// Growth on eating: the head marker moves to a new segment at the food's
/// position, which becomes the new first position; no segment is removed.
pub fn stronger(snake: &mut Snake, segments: &mut Vec<Segment>, event: EatFoodEvent)
    requires
        well_formed(old(snake)@, old(segments)@),
    ensures
        final(snake)@ == seq![event.0] + old(snake)@,
        well_formed(final(snake)@, final(segments)@),
{
    let ghost body0 = snake@;
    let mut old_head = segments[0];
    old_head.head = false;
    segments.set(0, old_head);
    segments.insert(0, Segment { pos: event.0, head: true });
    snake.body.insert(0, event.0);
    assert(snake@ =~= seq![event.0] + body0);
}

/// At most one segment carries the head marker.
pub proof fn lemma_single_head(body: Seq<Pos>, segments: Seq<Segment>)
    requires
        well_formed(body, segments),
    ensures
        forall|i: int, j: int|
            0 <= i < segments.len() && 0 <= j < segments.len() && (#[trigger] segments[i]).head
                && (#[trigger] segments[j]).head ==> i == j,
{
}

/// Movement ticks without eating keep the length, and the body is a path of
/// single cell steps: each of the first `ds.len()` positions is one step from
/// the next along the direction of the matching tick (latest first), and the
/// positions behind them are the old body shifted back.
pub proof fn lemma_moves_path(body: Seq<Pos>, ds: Seq<SnakeDirection>)
    requires
        body.len() >= 1,
    ensures
        moves(body, ds).len() == body.len(),
        forall|i: int, j: int|
            0 <= i < ds.len() && j == i + 1 && j < body.len() ==> #[trigger] moves(body, ds)[i]
                == step(#[trigger] moves(body, ds)[j], ds[ds.len() - 1 - i]),
        forall|i: int|
            ds.len() <= i < body.len() ==> #[trigger] moves(body, ds)[i] == body[i - ds.len()],
    decreases ds.len(),
{
    if ds.len() > 0 {
        let prev = ds.drop_last();
        lemma_moves_path(body, prev);
        let r0 = moves(body, prev);
        let r = moves(body, ds);
        assert(r == moved(r0, ds.last()));
        assert forall|i: int, j: int| 0 <= i < ds.len() && j == i + 1 && j < body.len() implies
            #[trigger] r[i] == step(#[trigger] r[j], ds[ds.len() - 1 - i]) by {
            if i > 0 {
                assert(r[i] == r0[i - 1]);
                assert(r[j] == r0[j - 1]);
                assert(prev[prev.len() - 1 - (i - 1)] == ds[ds.len() - 1 - i]);
            }
        }
        assert forall|i: int| ds.len() <= i < body.len() implies #[trigger] r[i] == body[i
            - ds.len()] by {
            assert(r[i] == r0[i - 1]);
        }
    }
}

} // verus!
