//! Food: at most one item on the field, placed on a free cell at random,
//! eaten when the head overlaps it.

use vstd::prelude::*;
use rand::Rng;
use crate::grid::{cell_at, collide, in_field, lemma_field_cell, overlaps, Cell, Pos, X_LENGTH, Y_LENGTH};

verus! {

/// Notice that food lying at the position has been eaten.
pub struct EatFoodEvent(pub Pos);

/// Some wall, snake segment or food item stands on the cell.
pub open spec fn occupied(c: Cell, walls: Seq<Cell>, body: Seq<Pos>, food: Option<Cell>) -> bool {
    ||| walls.contains(c)
    ||| body.contains(c.spec_pos())
    ||| food == Some(c)
}

/// Some cell of the field is not occupied.
pub open spec fn has_free_cell(walls: Seq<Cell>, body: Seq<Pos>, food: Option<Cell>) -> bool {
    exists|i: int, j: int|
        0 <= i < X_LENGTH && 0 <= j < Y_LENGTH && !occupied(#[trigger] cell_at(i, j), walls, body, food)
}

/// Whether some wall, snake segment or food item stands on `c`.
pub fn is_occupied(c: Cell, walls: &Vec<Cell>, body: &Vec<Pos>, food: Option<Cell>) -> (r: bool)
    ensures
        r == occupied(c, walls@, body@, food),
{
    if food == Some(c) {
        return true;
    }
    let mut k: usize = 0;
    while k < walls.len()
        invariant
            k <= walls@.len(),
            forall|m: int| 0 <= m < k ==> walls@[m] != c,
        decreases walls@.len() - k,
    {
        if walls[k] == c {
            assert(walls@[k as int] == c);
            return true;
        }
        k = k + 1;
    }
    let p = c.pos();
    let mut k: usize = 0;
    while k < body.len()
        invariant
            k <= body@.len(),
            p == c.spec_pos(),
            forall|m: int| 0 <= m < k ==> body@[m] != p,
        decreases body@.len() - k,
    {
        if body[k] == p {
            assert(body@[k as int] == p);
            return true;
        }
        k = k + 1;
    }
    false
}

/// The cells of the field that nothing occupies, column by column.
pub fn free_cells(walls: &Vec<Cell>, body: &Vec<Pos>, food: Option<Cell>) -> (r: Vec<Cell>)
    ensures
        r@.no_duplicates(),
        forall|k: int|
            0 <= k < r@.len() ==> in_field(#[trigger] r@[k]) && !occupied(r@[k], walls@, body@, food),
        forall|i: int, j: int|
            0 <= i < X_LENGTH && 0 <= j < Y_LENGTH && !occupied(cell_at(i, j), walls@, body@, food)
                ==> r@.contains(#[trigger] cell_at(i, j)),
{
    let mut r: Vec<Cell> = Vec::new();
    let mut i: u32 = 0;
    while i < X_LENGTH
        invariant
            i <= X_LENGTH,
            r@.no_duplicates(),
            forall|k: int|
                0 <= k < r@.len() ==> in_field(#[trigger] r@[k]) && !occupied(r@[k], walls@, body@, food)
                    && r@[k].0 < i * 50,
            forall|a: int, b: int|
                0 <= a < i && 0 <= b < Y_LENGTH && !occupied(cell_at(a, b), walls@, body@, food)
                    ==> r@.contains(#[trigger] cell_at(a, b)),
        decreases X_LENGTH - i,
    {
        let mut j: u32 = 0;
        while j < Y_LENGTH
            invariant
                i < X_LENGTH,
                j <= Y_LENGTH,
                r@.no_duplicates(),
                forall|k: int|
                    0 <= k < r@.len() ==> in_field(#[trigger] r@[k]) && !occupied(r@[k], walls@, body@, food)
                        && (r@[k].0 < i * 50 || (r@[k].0 == i * 50 && r@[k].1 < j * 50)),
                forall|a: int, b: int|
                    0 <= a < X_LENGTH && 0 <= b < Y_LENGTH && (a < i || (a == i && b < j))
                        && !occupied(cell_at(a, b), walls@, body@, food) ==> r@.contains(
                        #[trigger] cell_at(a, b),
                    ),
            decreases Y_LENGTH - j,
        {
            let c = Cell(i * 50, j * 50);
            assert(c == cell_at(i as int, j as int));
            if !is_occupied(c, walls, body, food) {
                let ghost before = r@;
                r.push(c);
                assert forall|k: int, m: int|
                    0 <= k < r@.len() && 0 <= m < r@.len() && k != m implies r@[k] != r@[m] by {
                    if k < before.len() && m < before.len() {
                        assert(before[k] == r@[k] && before[m] == r@[m]);
                    } else if k < before.len() {
                        assert(before[k] == r@[k]);
                    } else {
                        assert(before[m] == r@[m]);
                    }
                }
                assert forall|a: int, b: int|
                    0 <= a < X_LENGTH && 0 <= b < Y_LENGTH && (a < i || (a == i && b < j + 1))
                        && !occupied(cell_at(a, b), walls@, body@, food) implies r@.contains(
                    #[trigger] cell_at(a, b),
                ) by {
                    if a == i && b == j {
                        assert(r@[r@.len() - 1] == cell_at(a, b));
                    } else {
                        assert(before.contains(cell_at(a, b)));
                        let k = choose|k: int| 0 <= k < before.len() && before[k] == cell_at(a, b);
                        assert(r@[k] == cell_at(a, b));
                    }
                }
            }
            j = j + 1;
        }
        i = i + 1;
    }
    r
}

/// Relies on rand::thread_rng and rand::Rng::gen_range: a value drawn from
/// `0..n` (gen_range panics on an empty range).
#[verifier::external_body]
fn random_below(n: usize) -> (r: usize)
    requires
        n > 0,
    ensures
        r < n,
{
    rand::thread_rng().gen_range(0..n)
}

/// The free cell that a draw selects: the `draw`-th of `free`, if there is one.
pub fn pick_free_cell(free: &Vec<Cell>, draw: usize) -> (r: Option<Cell>)
    ensures
        r == (if draw < free@.len() {
            Some(free@[draw as int])
        } else {
            None::<Cell>
        }),
{
    if draw < free.len() {
        Some(free[draw])
    } else {
        None
    }
}

/// Places food on a random free cell of the field when there is none yet. When
/// food exists already, or every cell is occupied, nothing changes.
pub fn food_spawn(food: &mut Option<Cell>, walls: &Vec<Cell>, body: &Vec<Pos>)
    ensures
        *old(food) is Some ==> *final(food) == *old(food),
        *old(food) is None && has_free_cell(walls@, body@, None) ==> *final(food) is Some
            && in_field((*final(food))->0) && !occupied((*final(food))->0, walls@, body@, None),
        *old(food) is None && !has_free_cell(walls@, body@, None) ==> *final(food) is None,
{
    if food.is_some() {
        return;
    }
    let free = free_cells(walls, body, None);
    if free.len() == 0 {
        assert(!has_free_cell(walls@, body@, None));
        return;
    }
    proof {
        lemma_field_cell(free@[0]);
        let c = free@[0];
        assert(!occupied(cell_at(c.0 as int / 50, c.1 as int / 50), walls@, body@, None));
    }
    let draw = random_below(free.len());
    *food = pick_free_cell(&free, draw);
}

/// Eats the food when the head overlaps it: the food is removed and its
/// position returned. Without a head or food nothing happens.
pub fn check_food_collision(head: Option<Pos>, food: &mut Option<Cell>) -> (r: Option<EatFoodEvent>)
    ensures
        (if head is Some && *old(food) is Some && overlaps(head->0, (*old(food))->0.spec_pos()) {
            &&& *final(food) is None
            &&& r == Some(EatFoodEvent((*old(food))->0.spec_pos()))
        } else {
            &&& *final(food) == *old(food)
            &&& r is None
        }),
{
    match (head, *food) {
        (Some(h), Some(f)) => {
            let p = f.pos();
            if collide(h, p) {
                *food = None;
                Some(EatFoodEvent(p))
            } else {
                None
            }
        },
        _ => None,
    }
}

} // verus!
