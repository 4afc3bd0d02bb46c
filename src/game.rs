//! A whole session: the field, the snake, the food and the states, advanced
//! one frame at a time.

use vstd::prelude::*;
use crate::food::{check_food_collision, food_spawn, has_free_cell, occupied};
use crate::grid::{
    cell_at, in_field, lemma_field_cell, on_border, overlaps, pos_inside, pos_on_field, can_step, Cell, Pos,
    SnakeDirection, X_LENGTH, Y_LENGTH,
};
use crate::snake::{moved, snake_move, snake_spawn, stronger, well_formed, Segment, Snake, START};
use crate::state::{
    chosen_direction, control_input, game_pause, pause_toggled, AppResource, AppState, GameState,
    KeyPresses,
};
use crate::wall::{after_wall_check, check_wall_collision, spawn_border};

verus! {

/// The walls are exactly the cells of the field's outer ring.
pub open spec fn walls_form_border(walls: Seq<Cell>) -> bool {
    &&& forall|k: int| 0 <= k < walls.len() ==> on_border(#[trigger] walls[k])
    &&& forall|i: int, j: int|
        0 <= i < X_LENGTH && 0 <= j < Y_LENGTH && on_border(cell_at(i, j)) ==> walls.contains(
            #[trigger] cell_at(i, j),
        )
}

/// A field position overlaps a wall exactly when it lies on the outer ring.
proof fn lemma_wall_hit(p: Pos, walls: Seq<Cell>)
    requires
        walls_form_border(walls),
        pos_on_field(p),
    ensures
        (exists|k: int| 0 <= k < walls.len() && overlaps(p, #[trigger] walls[k].spec_pos()))
            <==> !pos_inside(p),
{
    if !pos_inside(p) {
        let c = Cell(p.x as u32, p.y as u32);
        lemma_field_cell(c);
        assert(on_border(c));
        assert(walls.contains(cell_at(c.0 as int / 50, c.1 as int / 50)));
        let k = choose|k: int| 0 <= k < walls.len() && walls[k] == c;
        assert(overlaps(p, walls[k].spec_pos()));
    }
}

/// A field cell that is no wall lies off the outer ring.
proof fn lemma_off_wall(c: Cell, walls: Seq<Cell>)
    requires
        walls_form_border(walls),
        in_field(c),
        !walls.contains(c),
    ensures
        pos_inside(c.spec_pos()),
{
    lemma_field_cell(c);
}

/// The body after the movement step of a playing frame: moved one cell in
/// `d` when a movement tick is due, else as it was.
pub open spec fn body_after_move(body: Seq<Pos>, d: SnakeDirection, move_due: bool) -> Seq<Pos> {
    if move_due {
        moved(body, d)
    } else {
        body
    }
}

/// The body after the eating step of a playing frame: when the head overlaps
/// the food, the food's position is put in front.
pub open spec fn body_after_eating(body: Seq<Pos>, food: Option<Cell>) -> Seq<Pos> {
    if food is Some && overlaps(body[0], food->0.spec_pos()) {
        seq![food->0.spec_pos()] + body
    } else {
        body
    }
}

/// One session of the game.
pub struct Game {
    pub app_state: AppState,
    pub game_state: GameState,
    pub resource: AppResource,
    pub walls: Vec<Cell>,
    pub food: Option<Cell>,
    pub snake: Snake,
    pub segments: Vec<Segment>,
}

impl Game {
    /// The session's invariant.
    pub open spec fn wf(&self) -> bool {
        &&& well_formed(self.snake@, self.segments@)
        &&& walls_form_border(self.walls@)
        &&& (self.food is Some ==> in_field(self.food->0) && !self.walls@.contains(self.food->0))
        &&& pos_on_field(self.snake@[0])
        &&& (self.app_state == AppState::InGame ==> pos_inside(self.snake@[0]))
    }

    /// In a session the head always lies on the field, so a movement tick
    /// never leaves the coordinate range and the snake's laws apply to every
    /// tick of every frame.
    pub proof fn lemma_head_can_step(&self)
        requires
            self.wf(),
        ensures
            can_step(self.snake@[0]),
            well_formed(self.snake@, self.segments@),
    {
    }

    /// A new session: the walls in place, playing, heading right, a snake of
    /// one segment at the start position, no food yet.
    pub fn setup() -> (r: Game)
        ensures
            r.wf(),
            r.app_state == AppState::InGame,
            r.game_state == GameState::Playing,
            r.resource.direction == SnakeDirection::Right,
            r.snake@ == seq![Pos { x: START, y: START }],
            r.segments@ == seq![Segment { pos: Pos { x: START, y: START }, head: true }],
            r.walls@.len() == 2 * X_LENGTH + 2 * Y_LENGTH - 4,
            r.walls@.no_duplicates(),
            r.food is None,
    {
        let walls = spawn_border();
        let (snake, segments) = snake_spawn();
        Game {
            app_state: AppState::InGame,
            game_state: GameState::Playing,
            resource: AppResource { direction: SnakeDirection::Right },
            walls,
            food: None,
            snake,
            segments,
        }
    }

    /// One frame. In game: space toggles the pause; while playing, the arrow
    /// keys set the direction, the snake moves when `move_due`, hitting a wall
    /// ends the game, and overlapping the food eats it and grows the snake.
    /// Then food is placed if there is none. Outside the game nothing happens.
    pub fn frame(&mut self, keys: &KeyPresses, move_due: bool)
        requires
            old(self).wf(),
        ensures
            final(self).wf(),
            final(self).walls@ == old(self).walls@,
            old(self).app_state != AppState::InGame ==> ({
                &&& final(self).app_state == old(self).app_state
                &&& final(self).game_state == old(self).game_state
                &&& final(self).resource == old(self).resource
                &&& final(self).snake@ == old(self).snake@
                &&& final(self).segments@ == old(self).segments@
                &&& final(self).food == old(self).food
            }),
            old(self).app_state == AppState::InGame ==> final(self).game_state == pause_toggled(
                old(self).game_state,
                *keys,
            ),
            old(self).app_state == AppState::InGame && final(self).game_state == GameState::Paused
                ==> ({
                &&& final(self).app_state == old(self).app_state
                &&& final(self).resource == old(self).resource
                &&& final(self).snake@ == old(self).snake@
                &&& final(self).segments@ == old(self).segments@
                &&& (old(self).food is Some ==> final(self).food == old(self).food)
            }),
            old(self).app_state == AppState::InGame && final(self).game_state == GameState::Playing
                ==> ({
                let body = body_after_move(
                    old(self).snake@,
                    final(self).resource.direction,
                    move_due,
                );
                &&& final(self).resource.direction == chosen_direction(
                    old(self).resource.direction,
                    *keys,
                )
                &&& final(self).app_state == after_wall_check(
                    AppState::InGame,
                    Some(body[0]),
                    old(self).walls@,
                )
                &&& final(self).snake@ == (if final(self).app_state == AppState::InGame {
                    body_after_eating(body, old(self).food)
                } else {
                    body
                })
            }),
            old(self).snake@.len() <= final(self).snake@.len() <= old(self).snake@.len() + 1,
            old(self).food is Some && final(self).snake@.len() == old(self).snake@.len()
                ==> final(self).food == old(self).food,
            old(self).app_state == AppState::InGame ==> final(self).food is Some || !has_free_cell(
                final(self).walls@,
                final(self).snake@,
                None,
            ),
            final(self).food is Some && final(self).food != old(self).food ==> !occupied(
                final(self).food->0,
                final(self).walls@,
                final(self).snake@,
                None,
            ),
    {
        if self.app_state != AppState::InGame {
            return;
        }
        self.game_state = game_pause(self.game_state, keys);
        if self.game_state == GameState::Playing {
            control_input(&mut self.resource, keys);
            if move_due {
                snake_move(&mut self.snake, &mut self.segments, self.resource.direction);
            }
            let head = self.snake.body[0];
            proof {
                lemma_wall_hit(head, self.walls@);
            }
            self.app_state = check_wall_collision(self.app_state, Some(head), &self.walls);
            if self.app_state == AppState::InGame {
                let ghost food0 = self.food;
                let eaten = check_food_collision(Some(head), &mut self.food);
                match eaten {
                    Some(event) => {
                        proof {
                            lemma_off_wall(food0->0, self.walls@);
                        }
                        stronger(&mut self.snake, &mut self.segments, event);
                    },
                    None => {},
                }
            }
        }
        food_spawn(&mut self.food, &self.walls, &self.snake.body);
    }
}

} // verus!
