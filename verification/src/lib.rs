//! Rules engine for five-in-a-row on a 15×15 grid: board state, turn
//! alternation, click-to-cell validation, win detection along the eight
//! directions, and the InGame/GameOver state machine with restart-on-click.

pub mod board;
pub mod click;
pub mod color;
pub mod game;
pub mod laws;
pub mod win;
