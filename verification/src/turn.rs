//! Moves and players as the session controller sees them.

use vstd::prelude::*;

verus! {

/// One of the two players of a game.
#[derive(Clone, Copy, Debug, PartialEq, Eq, Structural)]
pub enum Player {
    X,
    Y,
}

/// The player whose turn comes after `p`.
pub open spec fn other(p: Player) -> Player {
    match p {
        Player::X => Player::Y,
        Player::Y => Player::X,
    }
}

/// A move: a board cell named by zero-indexed row and column coordinates, or
/// the sentinel produced when raw input cannot be turned into coordinates.
/// The controller never interprets the coordinates; whether they name a legal
/// cell is the board engine's business.
#[derive(Clone, Copy, Debug, PartialEq, Eq, Structural)]
pub enum Turn {
    Valid { row: usize, col: usize },
    Invalid,
}

impl Turn {
    /// Build the move for the cell at `row`, `col`.
    pub fn new(row: usize, col: usize) -> (t: Turn)
        ensures
            t == (Turn::Valid { row, col }),
    {
        Turn::Valid { row, col }
    }
}

} // verus!
