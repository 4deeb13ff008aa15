//! The rules of a snake game played on a bounded grid.
//!
//! The crate holds the state of a game and the step that advances it by one
//! tick: the snake moves one cell along its heading, grows when it reaches the
//! food, and the game ends when the snake leaves the grid or runs into itself.
//! Drawing the game and reading the keyboard are left to the program around
//! it.

mod chance;
pub mod geo;
pub mod snake;
pub mod game;
pub mod control;
