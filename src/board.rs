//! The rectangular region that destinations are limited to.
use vstd::prelude::*;

use crate::vector::{Point, Vector};

verus! {

/// A board spanning `0..=size.x` by `0..=size.y`.
pub struct Board {
    pub size: Vector,
}

/// Whether `p` lies on `board`, edges included.
pub open spec fn on_board(board: Board, p: Point) -> bool {
    &&& 0 <= p.0 <= board.size.x
    &&& 0 <= p.1 <= board.size.y
}

/// The standard eight-by-eight board: coordinates `0..=7` on both axes.
pub open spec fn chess_board() -> Board {
    Board { size: Vector { x: 7, y: 7 } }
}

impl Board {
    /// Whether `vector` lies on this board.
    pub fn contains(&self, vector: &Vector) -> (r: bool)
        ensures
            r == on_board(*self, vector@),
    {
        vector.x >= 0 && vector.y >= 0 && vector.x <= self.width() && vector.y <= self.height()
    }

    /// The largest x coordinate on the board.
    pub fn width(&self) -> (r: isize)
        ensures
            r == self.size.x,
    {
        self.size.x
    }

    /// The largest y coordinate on the board.
    pub fn height(&self) -> (r: isize)
        ensures
            r == self.size.y,
    {
        self.size.y
    }
}

/// The standard eight-by-eight board.
pub fn standard_chess_board() -> (r: Board)
    ensures
        r == chess_board(),
{
    Board { size: Vector { x: 7, y: 7 } }
}

} // verus!
