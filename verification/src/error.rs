//! The errors that the rules engine, the search engine and the replay
//! validator report. All of them are local and recoverable: the caller
//! decides whether to re-prompt or to reject the request.

use vstd::prelude::*;

verus! {

/// Why an operation on a game was rejected.
#[derive(Debug, Clone, Copy, PartialEq, Eq, Structural)]
pub enum GameError {
    /// The addressed cell already holds a mark.
    CellOccupied(usize, usize),
    /// The addressed position lies outside the 3x3 board.
    InvalidPosition(usize, usize),
    /// The game has already been won or drawn.
    GameAlreadyFinished,
    /// A replayed move names a player whose turn it is not.
    NotPlayerTurn,
    /// No empty cell is left to choose from.
    NoValidMoves,
}

/// The result type of game operations.
pub type GameResult<T> = Result<T, GameError>;

} // verus!
