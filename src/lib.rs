//! Snake on a fixed grid: walls round the play field, a snake that moves one
//! cell per tick and grows when it eats, food placed on a free cell, and the
//! small state machine that gates play.

pub mod food;
pub mod game;
pub mod grid;
pub mod snake;
pub mod state;
pub mod wall;
