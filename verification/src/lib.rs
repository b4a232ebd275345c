use vstd::prelude::*;

pub mod board;
pub mod game;
pub mod render;

pub use board::Board;
pub use board::Outcome;
pub use board::Position;
pub use board::SmallBoard;
pub use game::Status;
pub use game::STTT;

verus! {

/// One of the two players of a Super Tic-Tac-Toe game.
#[derive(Copy, Clone, Debug, PartialEq, Eq, Structural)]
pub enum Player {
    X,
    O,
}

impl Player {
    /// The opponent of this player.
    pub open spec fn spec_other(self) -> Player {
        match self {
            Player::X => Player::O,
            Player::O => Player::X,
        }
    }

    /// Returns the opponent of this player.
    pub fn other(self) -> (r: Player)
        ensures
            r == self.spec_other(),
    {
        match self {
            Player::X => Player::O,
            Player::O => Player::X,
        }
    }
}

/// Why a requested move was rejected.  Every rejection leaves the game
/// untouched, so the caller may retry with corrected input.
#[derive(Copy, Clone, Debug, PartialEq, Eq, Structural)]
pub enum MoveError {
    /// The absolute position is not in the range `0..81`.
    PositionOutOfRange,
    /// The acting player is not the player whose turn it is.
    WrongTurn,
    /// The chosen small board is not in the current legal-board set.
    IllegalBoard,
    /// The chosen cell already holds a mark.
    CellOccupied,
    /// The game already ended in a win or a tie.
    AlreadyFinished,
}

impl MoveError {
    /// The text that describes each rejection.
    pub open spec fn message_text(self) -> Seq<char> {
        match self {
            MoveError::PositionOutOfRange => "Square out of limits"@,
            MoveError::WrongTurn => "It's not your turn!"@,
            MoveError::IllegalBoard => "You cannot play in that board!"@,
            MoveError::CellOccupied => "That square is not empty"@,
            MoveError::AlreadyFinished => "The game is already over"@,
        }
    }

    /// A human-readable description of the rejection.
    pub fn message(self) -> (r: &'static str)
        ensures
            r@ == self.message_text(),
    {
        match self {
            MoveError::PositionOutOfRange => "Square out of limits",
            MoveError::WrongTurn => "It's not your turn!",
            MoveError::IllegalBoard => "You cannot play in that board!",
            MoveError::CellOccupied => "That square is not empty",
            MoveError::AlreadyFinished => "The game is already over",
        }
    }
}

} // verus!
