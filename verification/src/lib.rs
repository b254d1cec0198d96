//! A session controller for a two-player Reversi game.
//!
//! The controller drives one game from start to finish: it decides when a
//! round is skipped, validates player input, records the moves that were
//! played, and reports the winner.  All game-rule decisions (which moves are
//! legal, whether the game is over, who won) belong to a board engine outside
//! this crate; the controller consumes the engine's answers as plain values,
//! and the driver around it performs the engine calls and the terminal
//! input/output.

pub mod parse;
pub mod session;
pub mod turn;
