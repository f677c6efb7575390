//! Geometric move generation for chess pieces: movement rules are expanded
//! from a piece's location into candidate squares, which are then limited to
//! the squares of a board.
pub mod board;
pub mod catalog;
pub mod moves;
pub mod rules;
pub mod vector;

pub use board::{standard_chess_board, Board};
pub use catalog::{rule_set, Piece, RuleSet};
pub use moves::find_moves;
pub use rules::MoveRule;
pub use vector::{Rotate, Vector};
