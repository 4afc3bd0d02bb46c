//! The ring of walls round the play field, and the head's collision with it.

use vstd::prelude::*;
use crate::grid::{cell_at, collide, on_border, overlaps, Cell, Pos, X_LENGTH, Y_LENGTH};
use crate::state::AppState;

verus! {

/// Number of wall cells in the columns before column `i`.
pub open spec fn border_before(i: int) -> int {
    if i <= 0 {
        0
    } else if i < X_LENGTH {
        2 * i + 8
    } else {
        46
    }
}

/// Number of wall cells in column `i` above row `j`.
pub open spec fn column_before(i: int, j: int) -> int {
    if i == 0 || i == X_LENGTH - 1 {
        j
    } else {
        (if j > 0 {
            1int
        } else {
            0int
        }) + (if j >= Y_LENGTH {
            1int
        } else {
            0int
        })
    }
}

/// Places one wall cell at (`x`, `y`).
pub fn wall_spawn(walls: &mut Vec<Cell>, x: u32, y: u32)
    ensures
        final(walls)@ == old(walls)@.push(Cell(x, y)),
{
    walls.push(Cell(x, y));
}

/// The walls of a new field: every cell of its outer ring, W*2 + H*2 - 4 of them.
pub fn spawn_border() -> (walls: Vec<Cell>)
    ensures
        walls@.len() == 2 * X_LENGTH + 2 * Y_LENGTH - 4,
        walls@.no_duplicates(),
        forall|k: int| 0 <= k < walls@.len() ==> on_border(#[trigger] walls@[k]),
        forall|i: int, j: int|
            0 <= i < X_LENGTH && 0 <= j < Y_LENGTH && on_border(cell_at(i, j)) ==> walls@.contains(
                #[trigger] cell_at(i, j),
            ),
{
    let mut walls: Vec<Cell> = Vec::new();
    let mut i: u32 = 0;
    while i < X_LENGTH
        invariant
            i <= X_LENGTH,
            walls@.len() == border_before(i as int),
            walls@.no_duplicates(),
            forall|k: int|
                0 <= k < walls@.len() ==> on_border(#[trigger] walls@[k]) && walls@[k].0 < i * 50,
            forall|a: int, b: int|
                0 <= a < i && 0 <= b < Y_LENGTH && on_border(cell_at(a, b)) ==> walls@.contains(
                    #[trigger] cell_at(a, b),
                ),
        decreases X_LENGTH - i,
    {
        let mut j: u32 = 0;
        while j < Y_LENGTH
            invariant
                i < X_LENGTH,
                j <= Y_LENGTH,
                walls@.len() == border_before(i as int) + column_before(i as int, j as int),
                walls@.no_duplicates(),
                forall|k: int|
                    0 <= k < walls@.len() ==> on_border(#[trigger] walls@[k]) && (walls@[k].0 < i
                        * 50 || (walls@[k].0 == i * 50 && walls@[k].1 < j * 50)),
                forall|a: int, b: int|
                    0 <= a < X_LENGTH && 0 <= b < Y_LENGTH && (a < i || (a == i && b < j))
                        && on_border(cell_at(a, b)) ==> walls@.contains(#[trigger] cell_at(a, b)),
            decreases Y_LENGTH - j,
        {
            if i == 0 || j == 0 || i == X_LENGTH - 1 || j == Y_LENGTH - 1 {
                let ghost before = walls@;
                wall_spawn(&mut walls, i * 50, j * 50);
                assert(walls@[walls@.len() - 1] == cell_at(i as int, j as int));
                assert forall|k: int, m: int|
                    0 <= k < walls@.len() && 0 <= m < walls@.len() && k != m implies walls@[k]
                    != walls@[m] by {
                    if k < before.len() && m < before.len() {
                        assert(before[k] == walls@[k] && before[m] == walls@[m]);
                    } else if k < before.len() {
                        assert(before[k] == walls@[k]);
                    } else {
                        assert(before[m] == walls@[m]);
                    }
                }
                assert forall|a: int, b: int|
                    0 <= a < X_LENGTH && 0 <= b < Y_LENGTH && (a < i || (a == i && b < j + 1))
                        && on_border(cell_at(a, b)) implies walls@.contains(
                    #[trigger] cell_at(a, b),
                ) by {
                    if a == i && b == j {
                        assert(walls@[walls@.len() - 1] == cell_at(a, b));
                    } else {
                        assert(before.contains(cell_at(a, b)));
                        let k = choose|k: int| 0 <= k < before.len() && before[k] == cell_at(a, b);
                        assert(walls@[k] == cell_at(a, b));
                    }
                }
            } else {
                assert(!on_border(cell_at(i as int, j as int)));
            }
            j = j + 1;
        }
        i = i + 1;
    }
    walls
}

/// The head overlaps at least one wall.
pub open spec fn hits_wall(head: Option<Pos>, walls: Seq<Cell>) -> bool {
    head is Some && exists|k: int|
        0 <= k < walls.len() && overlaps(head->0, #[trigger] walls[k].spec_pos())
}

/// The state that the wall test leaves: `Over` on a hit, else `state`.
pub open spec fn after_wall_check(state: AppState, head: Option<Pos>, walls: Seq<Cell>) -> AppState {
    if hits_wall(head, walls) {
        AppState::Over
    } else {
        state
    }
}

/// A hit ends the game from any state, and testing again changes nothing:
/// the outcome is the same whether one wall or several overlap the head.
pub proof fn lemma_wall_check_once(state: AppState, head: Option<Pos>, walls: Seq<Cell>)
    ensures
        hits_wall(head, walls) ==> after_wall_check(state, head, walls) == AppState::Over,
        after_wall_check(after_wall_check(state, head, walls), head, walls) == after_wall_check(
            state,
            head,
            walls,
        ),
{
}

/// The state after testing the head against every wall: `Over` when the head
/// overlaps at least one wall, however many, else `state` unchanged. Without a
/// head nothing happens.
pub fn check_wall_collision(state: AppState, head: Option<Pos>, walls: &Vec<Cell>) -> (r: AppState)
    ensures
        r == after_wall_check(state, head, walls@),
{
    let mut r = state;
    match head {
        None => {},
        Some(h) => {
            let mut k: usize = 0;
            while k < walls.len()
                invariant
                    k <= walls@.len(),
                    r == (if exists|m: int|
                        0 <= m < k && overlaps(h, #[trigger] walls@[m].spec_pos()) {
                        AppState::Over
                    } else {
                        state
                    }),
                decreases walls@.len() - k,
            {
                if collide(h, walls[k].pos()) {
                    r = AppState::Over;
                }
                k = k + 1;
            }
        },
    }
    r
}

} // verus!
