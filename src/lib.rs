//! A two-player Reversi engine: the board, legality of moves, captures,
//! turn order and the end of the game, with every rule stated and proved.

pub mod stone;
pub mod rules;
pub mod board;
pub mod laws;
pub mod input;

pub use board::{BoardView, ReversiBoard};
pub use input::{Input, InputError};
pub use stone::{Outcome, PlacementError, Side, Stone};
