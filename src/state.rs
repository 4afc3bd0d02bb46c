//! The game's states, the movement intent, and the rules that read the keyboard.

use vstd::prelude::*;
use crate::grid::SnakeDirection;

verus! {

/// The stage of a session.
#[derive(Clone, Copy, Debug, PartialEq, Eq, Structural)]
pub enum AppState {
    Menu,
    InGame,
    Over,
}

/// Whether play is running or paused.
#[derive(Clone, Copy, Debug, PartialEq, Eq, Structural)]
pub enum GameState {
    Playing,
    Paused,
}

/// The current movement intent.
#[derive(Clone, Copy, Debug, PartialEq, Eq, Structural)]
pub struct AppResource {
    pub direction: SnakeDirection,
}

/// The keys pressed since the last frame (edge-triggered).
#[derive(Clone, Copy, Debug, PartialEq, Eq, Structural)]
pub struct KeyPresses {
    pub up: bool,
    pub down: bool,
    pub left: bool,
    pub right: bool,
    pub space: bool,
}

/// The direction that the pressed arrow keys select, the first of Up, Down,
/// Left, Right that was pressed; `current` when none was.
pub open spec fn chosen_direction(current: SnakeDirection, keys: KeyPresses) -> SnakeDirection {
    if keys.up {
        SnakeDirection::Up
    } else if keys.down {
        SnakeDirection::Down
    } else if keys.left {
        SnakeDirection::Left
    } else if keys.right {
        SnakeDirection::Right
    } else {
        current
    }
}

/// Updates the movement intent from the arrow keys pressed this frame.
pub fn control_input(resource: &mut AppResource, keys: &KeyPresses)
    ensures
        final(resource).direction == chosen_direction(old(resource).direction, *keys),
{
    resource.direction = if keys.up {
        SnakeDirection::Up
    } else if keys.down {
        SnakeDirection::Down
    } else if keys.left {
        SnakeDirection::Left
    } else if keys.right {
        SnakeDirection::Right
    } else {
        resource.direction
    };
}

/// The play state after the keys of a frame: space toggles it.
pub open spec fn pause_toggled(state: GameState, keys: KeyPresses) -> GameState {
    if keys.space {
        match state {
            GameState::Playing => GameState::Paused,
            GameState::Paused => GameState::Playing,
        }
    } else {
        state
    }
}

/// Space toggles between playing and paused; other keys leave the state.
pub fn game_pause(state: GameState, keys: &KeyPresses) -> (r: GameState)
    ensures
        r == pause_toggled(state, *keys),
{
    if keys.space {
        match state {
            GameState::Playing => GameState::Paused,
            GameState::Paused => GameState::Playing,
        }
    } else {
        state
    }
}

} // verus!
