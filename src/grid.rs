//! Cells, world positions, movement directions and box overlap.

use vstd::prelude::*;

verus! {

/// Side of one grid cell, in world units.
pub const CELL_SIZE: i64 = 50;

/// Width of the play field, in cells.
pub const X_LENGTH: u32 = 15;

/// Height of the play field, in cells.
pub const Y_LENGTH: u32 = 10;

/// A world-space position: the centre of a sprite.
#[derive(Clone, Copy, Debug, PartialEq, Eq, Structural)]
pub struct Pos {
    pub x: i64,
    pub y: i64,
}

/// The coordinates of a placed entity, in world units (multiples of the cell size).
#[derive(Clone, Copy, Debug, PartialEq, Eq, Structural)]
pub struct Cell(pub u32, pub u32);

/// A movement direction of the snake.
#[derive(Clone, Copy, Debug, PartialEq, Eq, Structural)]
pub enum SnakeDirection {
    Up,
    Down,
    Left,
    Right,
}

impl Cell {
    pub open spec fn spec_pos(self) -> Pos {
        Pos { x: self.0 as i64, y: self.1 as i64 }
    }

    /// The world position of the cell's centre.
    pub fn pos(&self) -> (r: Pos)
        ensures
            r == self.spec_pos(),
    {
        Pos { x: self.0 as i64, y: self.1 as i64 }
    }
}

/// The cell lies on the play field: aligned to the cell size, within W x H cells.
pub open spec fn in_field(c: Cell) -> bool {
    &&& c.0 % 50 == 0
    &&& c.1 % 50 == 0
    &&& c.0 < X_LENGTH * 50
    &&& c.1 < Y_LENGTH * 50
}

/// The cell in column `i` and row `j` of the field.
pub open spec fn cell_at(i: int, j: int) -> Cell {
    Cell((i * 50) as u32, (j * 50) as u32)
}

/// Every cell of the field is the cell of its own column and row.
pub proof fn lemma_field_cell(c: Cell)
    requires
        in_field(c),
    ensures
        c == cell_at(c.0 as int / 50, c.1 as int / 50),
        0 <= c.0 as int / 50 < X_LENGTH,
        0 <= c.1 as int / 50 < Y_LENGTH,
{
}

/// The position is the centre of a cell of the field.
pub open spec fn pos_on_field(p: Pos) -> bool {
    &&& 0 <= p.x < X_LENGTH * 50
    &&& 0 <= p.y < Y_LENGTH * 50
    &&& p.x % 50 == 0
    &&& p.y % 50 == 0
}

/// The position is the centre of a cell of the field off its outer ring.
pub open spec fn pos_inside(p: Pos) -> bool {
    &&& pos_on_field(p)
    &&& p.x != 0 && p.y != 0 && p.x != (X_LENGTH - 1) * 50 && p.y != (Y_LENGTH - 1) * 50
}

/// The cell is part of the field's outer ring.
pub open spec fn on_border(c: Cell) -> bool {
    &&& in_field(c)
    &&& (c.0 == 0 || c.1 == 0 || c.0 == (X_LENGTH - 1) * 50 || c.1 == (Y_LENGTH - 1) * 50)
}

/// Two cell-sized boxes centred on `a` and `b` intersect (touching edges do not count).
pub open spec fn overlaps(a: Pos, b: Pos) -> bool {
    &&& -CELL_SIZE < a.x - b.x < CELL_SIZE
    &&& -CELL_SIZE < a.y - b.y < CELL_SIZE
}

/// One step of a direction can be taken from `p` without leaving the coordinate range.
pub open spec fn can_step(p: Pos) -> bool {
    &&& i64::MIN + CELL_SIZE <= p.x <= i64::MAX - CELL_SIZE
    &&& i64::MIN + CELL_SIZE <= p.y <= i64::MAX - CELL_SIZE
}

/// The position one cell away from `p` in direction `d`.
pub open spec fn step(p: Pos, d: SnakeDirection) -> Pos {
    match d {
        SnakeDirection::Up => Pos { x: p.x, y: (p.y + CELL_SIZE) as i64 },
        SnakeDirection::Down => Pos { x: p.x, y: (p.y - CELL_SIZE) as i64 },
        SnakeDirection::Left => Pos { x: (p.x - CELL_SIZE) as i64, y: p.y },
        SnakeDirection::Right => Pos { x: (p.x + CELL_SIZE) as i64, y: p.y },
    }
}

/// Whether cell-sized boxes centred on `a` and `b` intersect.
pub fn collide(a: Pos, b: Pos) -> (r: bool)
    ensures
        r == overlaps(a, b),
{
    let dx: i128 = a.x as i128 - b.x as i128;
    let dy: i128 = a.y as i128 - b.y as i128;
    let size: i128 = CELL_SIZE as i128;
    -size < dx && dx < size && -size < dy && dy < size
}

/// The position one cell away from `snake_head` in `direction`.
pub fn get_next_position(snake_head: Pos, direction: SnakeDirection) -> (r: Pos)
    requires
        can_step(snake_head),
    ensures
        r == step(snake_head, direction),
{
    match direction {
        SnakeDirection::Up => Pos { x: snake_head.x, y: snake_head.y + CELL_SIZE },
        SnakeDirection::Down => Pos { x: snake_head.x, y: snake_head.y - CELL_SIZE },
        SnakeDirection::Left => Pos { x: snake_head.x - CELL_SIZE, y: snake_head.y },
        SnakeDirection::Right => Pos { x: snake_head.x + CELL_SIZE, y: snake_head.y },
    }
}

} // verus!
