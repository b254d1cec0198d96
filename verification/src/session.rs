//! The session: round protocol, move record, and the final announcement.
//!
//! The controller owns no game rules.  The board engine answers every
//! game-rule question (which moves are legal, whether a candidate is legal,
//! who won); the caller passes those answers in as plain values and performs
//! the engine calls and the input/output around each step.

use vstd::prelude::*;
use crate::turn::{other, Player, Turn};

verus! {

/// One game session.
///
/// `player` mirrors the engine's active player: it starts as the engine's
/// first player and is switched exactly when the engine switches — on a
/// skipped round, and on every played move (the engine's `play` hands the
/// turn over as a side effect).
///
/// `turns` is the append-only record of the moves that were played, one per
/// round that was not skipped.  It is a record only: the controller never
/// reads it back to steer the game.
pub struct Game {
    pub player: Player,
    pub turns: Vec<Turn>,
}

impl Game {
    /// A fresh session: player X moves first, nothing has been played.
    pub fn new() -> (g: Game)
        ensures
            g.player == Player::X,
            g.turns@ == Seq::<Turn>::empty(),
    {
        Game { player: Player::X, turns: Vec::new() }
    }

    /// A session resumed over a pre-existing board whose active player is
    /// `player`: the record of moves starts empty.
    pub fn with_player(player: Player) -> (g: Game)
        ensures
            g.player == player,
            g.turns@ == Seq::<Turn>::empty(),
    {
        Game { player, turns: Vec::new() }
    }

    /// The 1-based number of the round about to be played.
    pub fn round_number(&self) -> (n: usize)
        requires
            self.turns@.len() < usize::MAX,
        ensures
            n == self.turns@.len() + 1,
    {
        self.turns.len() + 1
    }

    /// Mirror the engine's `switch_player`: the turn passes to the other
    /// player and the board — here, the move record — is untouched.
    pub fn switch_player(&mut self)
        ensures
            final(self).player == other(old(self).player),
            final(self).turns@ == old(self).turns@,
    {
        self.player = match self.player {
            Player::X => Player::Y,
            Player::Y => Player::X,
        };
    }

    /// Round start: given the legal moves the engine reported for the active
    /// player, decide whether this round is skipped.  When the list is empty
    /// the engine switches the active player without touching the board, the
    /// session mirrors the switch, and nothing is recorded; otherwise the
    /// session is untouched and input must be sought.  The moves themselves
    /// are opaque here: the controller neither sorts, deduplicates nor
    /// inspects them.
    pub fn begin_round<T>(&mut self, legal_turns: &Vec<T>) -> (skipped: bool)
        ensures
            skipped <==> legal_turns@.len() == 0,
            final(self).turns@ == old(self).turns@,
            skipped ==> final(self).player == other(old(self).player),
            !skipped ==> *final(self) == *old(self),
    {
        if legal_turns.is_empty() {
            self.switch_player();
            true
        } else {
            false
        }
    }

    /// Record a validated move: the engine applies it to the board and hands
    /// the turn over; the session appends it to the record and mirrors the
    /// switch.
    pub fn set_turn(&mut self, turn: Turn)
        ensures
            final(self).turns@ == old(self).turns@.push(turn),
            final(self).player == other(old(self).player),
    {
        self.turns.push(turn);
        self.switch_player();
    }

    /// One attempt of the input validation loop, after parsing: `legal` is
    /// the engine's verdict on `turn` against the current board.  The attempt
    /// is accepted exactly when `turn` is not the invalid sentinel and the
    /// engine found it legal; only then is the move recorded.  A rejected
    /// attempt leaves the session untouched and the caller re-prompts.
    pub fn accept_turn(&mut self, turn: Turn, legal: bool) -> (accepted: bool)
        ensures
            accepted <==> (turn != Turn::Invalid && legal),
            accepted ==> final(self).turns@ == old(self).turns@.push(turn)
                && final(self).player == other(old(self).player),
            !accepted ==> *final(self) == *old(self),
    {
        if turn == Turn::Invalid || !legal {
            false
        } else {
            self.set_turn(turn);
            true
        }
    }
}

/// The end-of-game announcement: exactly one of three messages, matching the
/// engine's winner verdict (`None` is a tie).
pub fn winner_message(winner: Option<Player>) -> (msg: String)
    ensures
        winner == Some(Player::X) ==> msg@ == "Player X wins!"@,
        winner == Some(Player::Y) ==> msg@ == "Player Y wins!"@,
        winner is None ==> msg@ == "It's a tie!"@,
{
    match winner {
        Some(Player::X) => "Player X wins!".to_owned(),
        Some(Player::Y) => "Player Y wins!".to_owned(),
        None => "It's a tie!".to_owned(),
    }
}

} // verus!
