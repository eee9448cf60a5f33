//! The rules engine: the 3x3 grid and its turn/status state machine.
//!
//! A game starts on an empty board with `X` to move and stays `InProgress`
//! until a move completes a line or fills the board; `Won` and `Draw` are
//! absorbing. The one mutating operation is [`GameState::make_move`], whose
//! whole effect is pinned down by [`spec_move`].

use vstd::prelude::*;

use crate::error::GameError;
use crate::history::GameHistory;
use crate::player::Player;

verus! {

/// One square of the grid.
#[derive(Debug, Clone, Copy, PartialEq, Eq, Structural)]
pub enum Cell {
    /// An empty cell.
    Empty,
    /// A cell holding a player's mark.
    Occupied(Player),
}

/// Where a game stands. Once it leaves `InProgress` it never changes again.
#[derive(Debug, Clone, Copy, PartialEq, Eq, Structural)]
pub enum GameStatus {
    /// The game is still being played.
    InProgress,
    /// The given player has completed a line.
    Won(Player),
    /// The board is full and nobody has won.
    Draw,
}

/// The complete state of one game. The board is stored row-major:
/// cell `(row, col)` lives at index `3 * row + col`.
#[derive(Debug, Clone, Copy, PartialEq)]
pub struct GameState {
    /// Unique identifier: the 128 bits of the game's UUID.
    pub id: u128,
    /// The nine cells, row-major.
    pub board: [Cell; 9],
    /// The mark whose turn it is.
    pub current_turn: Player,
    /// Where the game stands.
    pub status: GameStatus,
}

/// All three cells of `row` hold `p`'s mark.
pub open spec fn row_won(b: Seq<Cell>, p: Player, row: int) -> bool {
    &&& b[3 * row] == Cell::Occupied(p)
    &&& b[3 * row + 1] == Cell::Occupied(p)
    &&& b[3 * row + 2] == Cell::Occupied(p)
}

/// All three cells of `col` hold `p`'s mark.
pub open spec fn col_won(b: Seq<Cell>, p: Player, col: int) -> bool {
    &&& b[col] == Cell::Occupied(p)
    &&& b[3 + col] == Cell::Occupied(p)
    &&& b[6 + col] == Cell::Occupied(p)
}

/// The main diagonal holds `p`'s mark three times.
pub open spec fn main_diag_won(b: Seq<Cell>, p: Player) -> bool {
    &&& b[0] == Cell::Occupied(p)
    &&& b[4] == Cell::Occupied(p)
    &&& b[8] == Cell::Occupied(p)
}

/// The anti-diagonal holds `p`'s mark three times.
pub open spec fn anti_diag_won(b: Seq<Cell>, p: Player) -> bool {
    &&& b[2] == Cell::Occupied(p)
    &&& b[4] == Cell::Occupied(p)
    &&& b[6] == Cell::Occupied(p)
}

/// Some line passing through cell `(row, col)` is filled with `p`'s mark:
/// its row, its column, and whichever diagonals run through the cell.
pub open spec fn wins_through(b: Seq<Cell>, p: Player, row: int, col: int) -> bool {
    ||| row_won(b, p, row)
    ||| col_won(b, p, col)
    ||| (row == col && main_diag_won(b, p))
    ||| (row + col == 2 && anti_diag_won(b, p))
}

/// No cell is empty.
pub open spec fn board_full(b: Seq<Cell>) -> bool {
    forall|i: int| 0 <= i < 9 ==> b[i] != Cell::Empty
}

/// The status reached once `p` has just filled cell `(row, col)` and the
/// board now reads `b`. Terminal conditions are evaluated on the lines
/// passing through the just-played cell alone.
pub open spec fn status_after(b: Seq<Cell>, p: Player, row: int, col: int) -> GameStatus {
    if wins_through(b, p, row, col) {
        GameStatus::Won(p)
    } else if board_full(b) {
        GameStatus::Draw
    } else {
        GameStatus::InProgress
    }
}

/// The state reached when the side to move legally fills cell `(row, col)`:
/// that one cell takes its mark, the status is re-evaluated on the lines
/// through the cell, and the turn flips only if the game goes on.
pub open spec fn spec_apply(s: GameState, row: int, col: int) -> GameState {
    let b = vstd::array::spec_array_update(s.board, 3 * row + col, Cell::Occupied(s.current_turn));
    let st = status_after(b@, s.current_turn, row, col);
    GameState {
        id: s.id,
        board: b,
        current_turn: if st == GameStatus::InProgress {
            s.current_turn.spec_opponent()
        } else {
            s.current_turn
        },
        status: st,
    }
}

/// What a move request at `(row, col)` does to state `s`: the successor
/// state, or the error that rejects the request and leaves `s` alone.
pub open spec fn spec_move(s: GameState, row: usize, col: usize) -> Result<GameState, GameError> {
    if s.status != GameStatus::InProgress {
        Err(GameError::GameAlreadyFinished)
    } else if row >= 3 || col >= 3 {
        Err(GameError::InvalidPosition(row, col))
    } else if s.board@[3 * row + col] != Cell::Empty {
        Err(GameError::CellOccupied(row, col))
    } else {
        Ok(spec_apply(s, row as int, col as int))
    }
}

/// A fresh game: empty board, `X` to move, in progress.
pub open spec fn spec_fresh(id: u128) -> GameState {
    GameState {
        id: id,
        board: vstd::array::spec_array_fill_for_copy_type::<Cell, 9>(Cell::Empty),
        current_turn: Player::X,
        status: GameStatus::InProgress,
    }
}

/// Relies on `uuid::Uuid::new_v4`: a freshly generated random (version 4)
/// UUID, carried here as its 128-bit value. Nothing is promised of a random
/// result.
#[verifier::external_body]
fn fresh_game_id() -> u128 {
    uuid::Uuid::new_v4().as_u128()
}

impl GameState {
    /// Creates a new game with an empty board and a freshly drawn identifier.
    pub fn new() -> (r: Self)
        ensures
            r == spec_fresh(r.id),
    {
        Self {
            id: fresh_game_id(),
            board: [Cell::Empty; 9],
            current_turn: Player::X,
            status: GameStatus::InProgress,
        }
    }

    /// Creates a new game under a given identifier; this is how a replay
    /// seeds the game it reconstructs.
    pub fn new_with_id(id: u128) -> (r: Self)
        ensures
            r == spec_fresh(id),
    {
        Self {
            id,
            board: [Cell::Empty; 9],
            current_turn: Player::X,
            status: GameStatus::InProgress,
        }
    }

    /// Reads the cell at `(row, col)`.
    pub fn cell(&self, row: usize, col: usize) -> (c: Cell)
        requires
            row < 3,
            col < 3,
        ensures
            c == self.board@[3 * row + col],
    {
        self.board[3 * row + col]
    }

    /// Makes a move at `(row, col)` for the side whose turn it is.
    ///
    /// The move is rejected — and the state left untouched — when the game
    /// is already finished, the position lies off the board, or the cell is
    /// taken; otherwise the state advances exactly as [`spec_move`] says.
    pub fn make_move(&mut self, row: usize, col: usize) -> (r: Result<(), GameError>)
        ensures
            match r {
                Ok(()) => spec_move(*old(self), row, col) == Ok::<GameState, GameError>(
                    *final(self),
                ),
                Err(e) => spec_move(*old(self), row, col) == Err::<GameState, GameError>(e)
                    && *final(self) == *old(self),
            },
            r is Ok <==> (old(self).status == GameStatus::InProgress && row < 3 && col < 3
                && old(self).board@[3 * row + col] == Cell::Empty),
    {
        if self.status != GameStatus::InProgress {
            return Err(GameError::GameAlreadyFinished);
        }
        if row >= 3 || col >= 3 {
            return Err(GameError::InvalidPosition(row, col));
        }
        match self.board[3 * row + col] {
            Cell::Empty => {
                self.board[3 * row + col] = Cell::Occupied(self.current_turn);
                self.update_game_status(row, col);
                if self.status == GameStatus::InProgress {
                    self.current_turn = self.current_turn.opponent();
                }
                Ok(())
            },
            Cell::Occupied(_) => Err(GameError::CellOccupied(row, col)),
        }
    }

    /// Re-evaluates the status after the side to move has just filled cell
    /// `(last_row, last_col)`, looking only at the lines through that cell.
    fn update_game_status(&mut self, last_row: usize, last_col: usize)
        requires
            last_row < 3,
            last_col < 3,
            old(self).status == GameStatus::InProgress,
        ensures
            final(self).id == old(self).id,
            final(self).board == old(self).board,
            final(self).current_turn == old(self).current_turn,
            final(self).status == status_after(
                old(self).board@,
                old(self).current_turn,
                last_row as int,
                last_col as int,
            ),
    {
        let p = self.current_turn;

        let row_win = self.board[3 * last_row] == Cell::Occupied(p) && self.board[3 * last_row
            + 1] == Cell::Occupied(p) && self.board[3 * last_row + 2] == Cell::Occupied(p);
        if row_win {
            self.status = GameStatus::Won(p);
            return ;
        }

        let col_win = self.board[last_col] == Cell::Occupied(p) && self.board[3 + last_col]
            == Cell::Occupied(p) && self.board[6 + last_col] == Cell::Occupied(p);
        if col_win {
            self.status = GameStatus::Won(p);
            return ;
        }

        if last_row == last_col {
            let diag_win = self.board[0] == Cell::Occupied(p) && self.board[4] == Cell::Occupied(p)
                && self.board[8] == Cell::Occupied(p);
            if diag_win {
                self.status = GameStatus::Won(p);
                return ;
            }
        }

        if last_row + last_col == 2 {
            let anti_win = self.board[2] == Cell::Occupied(p) && self.board[4] == Cell::Occupied(p)
                && self.board[6] == Cell::Occupied(p);
            if anti_win {
                self.status = GameStatus::Won(p);
                return ;
            }
        }

        let full = self.board[0] != Cell::Empty && self.board[1] != Cell::Empty && self.board[2]
            != Cell::Empty && self.board[3] != Cell::Empty && self.board[4] != Cell::Empty
            && self.board[5] != Cell::Empty && self.board[6] != Cell::Empty && self.board[7]
            != Cell::Empty && self.board[8] != Cell::Empty;
        if full {
            self.status = GameStatus::Draw;
        }
    }

    /// Creates a fresh history log for this game.
    pub fn create_history(&self) -> (h: GameHistory)
        ensures
            h.game_id == self.id,
            h.moves@.len() == 0,
            h.ended_at is None,
            h.final_status is None,
    {
        GameHistory::new(self.id)
    }
}

/// The number of cells of `b[..n]` holding `p`'s mark.
pub open spec fn marks_in_prefix(b: Seq<Cell>, p: Player, n: int) -> int
    decreases n,
{
    if n <= 0 {
        0
    } else {
        marks_in_prefix(b, p, n - 1) + if b[n - 1] == Cell::Occupied(p) {
            1int
        } else {
            0int
        }
    }
}

/// The number of cells of a board holding `p`'s mark.
pub open spec fn mark_count(b: Seq<Cell>, p: Player) -> int {
    marks_in_prefix(b, p, 9)
}

/// The board invariant of a reachable state: `X` moves first, so it holds
/// either as many marks as `O` or exactly one more — and whose turn it is
/// tells which. While the game runs, it is `X`'s turn exactly when the
/// counts are level; once it has ended the turn stayed with the last mover,
/// so it is `X` exactly when `X` is the mark ahead.
pub open spec fn balanced(s: GameState) -> bool {
    let x = mark_count(s.board@, Player::X);
    let o = mark_count(s.board@, Player::O);
    &&& (x == o || x == o + 1)
    &&& (s.status == GameStatus::InProgress ==> (s.current_turn == Player::X <==> x == o))
    &&& (s.status != GameStatus::InProgress ==> (s.current_turn == Player::X <==> x == o + 1))
}

/// Updating one cell moves the prefix counts by exactly the difference the
/// cell itself contributes.
proof fn lemma_marks_in_prefix_update(b: Seq<Cell>, p: Player, i: int, v: Cell, n: int)
    requires
        0 <= i < b.len(),
        0 <= n <= b.len(),
    ensures
        marks_in_prefix(b.update(i, v), p, n) == marks_in_prefix(b, p, n) + if i < n {
            (if v == Cell::Occupied(p) {
                1int
            } else {
                0int
            }) - (if b[i] == Cell::Occupied(p) {
                1int
            } else {
                0int
            })
        } else {
            0int
        },
    decreases n,
{
    if n > 0 {
        lemma_marks_in_prefix_update(b, p, i, v, n - 1);
    }
}

/// A board with no marks in its first `n` cells counts none there.
proof fn lemma_no_marks(b: Seq<Cell>, p: Player, n: int)
    requires
        forall|i: int| 0 <= i < n ==> b[i] == Cell::Empty,
    ensures
        marks_in_prefix(b, p, n) == 0,
    decreases n,
{
    if n > 0 {
        lemma_no_marks(b, p, n - 1);
    }
}

/// Law: a fresh game is balanced.
pub proof fn lemma_fresh_is_balanced(id: u128)
    ensures
        balanced(spec_fresh(id)),
{
    let b = spec_fresh(id).board@;
    lemma_no_marks(b, Player::X, 9);
    lemma_no_marks(b, Player::O, 9);
}

/// Law: the rules engine keeps the board balanced; with
/// [`lemma_fresh_is_balanced`], every reachable state is.
pub proof fn lemma_move_preserves_balance(s: GameState, row: usize, col: usize)
    requires
        balanced(s),
    ensures
        spec_move(s, row, col) matches Ok(t) ==> balanced(t),
{
    if s.status == GameStatus::InProgress && row < 3 && col < 3 && s.board@[3 * row + col]
        == Cell::Empty {
        let i = 3 * row + col;
        let mover = s.current_turn;
        let t = spec_apply(s, row as int, col as int);
        assert(t.board@ =~= s.board@.update(i as int, Cell::Occupied(mover)));
        lemma_marks_in_prefix_update(s.board@, Player::X, i as int, Cell::Occupied(mover), 9);
        lemma_marks_in_prefix_update(s.board@, Player::O, i as int, Cell::Occupied(mover), 9);
    }
}

/// Player `p` has some complete line on `b`: one of the three rows, the
/// three columns, or the two diagonals.
pub open spec fn some_line_won(b: Seq<Cell>, p: Player) -> bool {
    ||| row_won(b, p, 0)
    ||| row_won(b, p, 1)
    ||| row_won(b, p, 2)
    ||| col_won(b, p, 0)
    ||| col_won(b, p, 1)
    ||| col_won(b, p, 2)
    ||| main_diag_won(b, p)
    ||| anti_diag_won(b, p)
}

/// The status of a state tells the truth about its board: while the game
/// runs nobody has a line — which is why checking only the lines through the
/// just-played cell misses nothing — a won game shows the winner's line, and
/// a drawn game shows a full board.
pub open spec fn status_sound(s: GameState) -> bool {
    &&& (s.status == GameStatus::InProgress ==> !some_line_won(s.board@, Player::X)
        && !some_line_won(s.board@, Player::O))
    &&& (s.status matches GameStatus::Won(p) ==> some_line_won(s.board@, p))
    &&& (s.status == GameStatus::Draw ==> board_full(s.board@))
}

/// Law: a fresh game's status tells the truth about its board.
pub proof fn lemma_fresh_status_sound(id: u128)
    ensures
        status_sound(spec_fresh(id)),
{
}

/// Law: the rules engine keeps the status truthful; with
/// [`lemma_fresh_status_sound`], it is truthful in every reachable state.
pub proof fn lemma_move_preserves_status_soundness(s: GameState, row: usize, col: usize)
    requires
        status_sound(s),
    ensures
        spec_move(s, row, col) matches Ok(t) ==> status_sound(t),
{
    if s.status == GameStatus::InProgress && row < 3 && col < 3 && s.board@[3 * row + col]
        == Cell::Empty {
        let t = spec_apply(s, row as int, col as int);
        let b0 = s.board@;
        let b = t.board@;
        let i = 3 * row + col;
        assert(b =~= b0.update(i as int, Cell::Occupied(s.current_turn)));
        assert(forall|j: int| 0 <= j < 9 && j != i ==> b[j] == b0[j]);
        assert(b[i as int] == Cell::Occupied(s.current_turn));
    }
}

/// Law: a legal move changes exactly one cell, from `Empty` to the mover's
/// mark, and leaves every other cell and the game's identity untouched.
pub proof fn lemma_move_changes_one_cell(s: GameState, row: usize, col: usize)
    requires
        s.status == GameStatus::InProgress,
        row < 3,
        col < 3,
        s.board@[3 * row + col] == Cell::Empty,
    ensures
        spec_move(s, row, col) matches Ok(t) && {
            &&& t.board@[3 * row + col] == Cell::Occupied(s.current_turn)
            &&& forall|i: int|
                0 <= i < 9 && i != 3 * row + col ==> t.board@[i] == s.board@[i]
            &&& t.id == s.id
        },
{
}

} // verus!
