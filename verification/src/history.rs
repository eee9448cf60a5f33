//! The history log: an append-only record of the moves of one game, and the
//! replay validator that runs a log through the rules engine to check that it
//! describes a legally played game.

use vstd::prelude::*;

use crate::error::GameError;
use crate::game::{spec_fresh, spec_move, GameState, GameStatus};
use crate::player::Player;

verus! {

/// One recorded move. Immutable once written down.
#[derive(Debug, Clone, Copy, PartialEq)]
pub struct GameMove {
    /// The player who made the move.
    pub player: Player,
    /// The row where the move was made (0-2).
    pub row: usize,
    /// The column where the move was made (0-2).
    pub col: usize,
    /// When the move was recorded: milliseconds since the Unix epoch.
    pub timestamp: i64,
}

/// Relies on `chrono::Utc::now` (read through `DateTime::timestamp_millis`):
/// the current wall-clock time as milliseconds since the Unix epoch. Nothing
/// is promised of the clock's value.
#[verifier::external_body]
fn now_millis() -> i64 {
    chrono::Utc::now().timestamp_millis()
}

impl GameMove {
    /// Records a move, stamped with the current wall-clock time.
    pub fn new(player: Player, row: usize, col: usize) -> (m: Self)
        ensures
            m.player == player,
            m.row == row,
            m.col == col,
    {
        Self { player, row, col, timestamp: now_millis() }
    }
}

/// The complete history of one game: its moves in chronological order, when
/// it started, and — once it has ended — when and how.
#[derive(Debug, Clone)]
pub struct GameHistory {
    /// The identifier of the game the log belongs to.
    pub game_id: u128,
    /// The moves, in the order they were played.
    pub moves: Vec<GameMove>,
    /// When the game started: milliseconds since the Unix epoch.
    pub started_at: i64,
    /// When the game ended, if it has.
    pub ended_at: Option<i64>,
    /// The final status of the game, if it has ended.
    pub final_status: Option<GameStatus>,
}

/// Replays `moves[i..]` against state `s`: each move must name the side to
/// move and pass the rules engine, or replay stops with that move's error.
pub open spec fn spec_replay_from(s: GameState, moves: Seq<GameMove>, i: int) -> Result<
    GameState,
    GameError,
>
    decreases moves.len() - i,
{
    if i < 0 || i >= moves.len() {
        Ok(s)
    } else {
        let m = moves[i];
        if s.current_turn != m.player {
            Err(GameError::NotPlayerTurn)
        } else {
            match spec_move(s, m.row, m.col) {
                Ok(t) => spec_replay_from(t, moves, i + 1),
                Err(e) => Err(e),
            }
        }
    }
}

/// Replays a whole log against a fresh game seeded with `id`.
pub open spec fn spec_replay(id: u128, moves: Seq<GameMove>) -> Result<GameState, GameError> {
    spec_replay_from(spec_fresh(id), moves, 0)
}

impl GameHistory {
    /// Creates an empty history for the given game, stamped with the current
    /// wall-clock time as its start.
    pub fn new(game_id: u128) -> (h: Self)
        ensures
            h.game_id == game_id,
            h.moves@.len() == 0,
            h.ended_at is None,
            h.final_status is None,
    {
        Self {
            game_id,
            moves: Vec::new(),
            started_at: now_millis(),
            ended_at: None,
            final_status: None,
        }
    }

    /// Appends a move, stamped with the current wall-clock time. Legality is
    /// not checked here: the caller is expected to have already applied the
    /// move through the rules engine.
    pub fn add_move(&mut self, player: Player, row: usize, col: usize)
        ensures
            final(self).moves@.len() == old(self).moves@.len() + 1,
            final(self).moves@[old(self).moves@.len() as int].player == player,
            final(self).moves@[old(self).moves@.len() as int].row == row,
            final(self).moves@[old(self).moves@.len() as int].col == col,
            forall|k: int|
                0 <= k < old(self).moves@.len() ==> final(self).moves@[k] == old(self).moves@[k],
            final(self).game_id == old(self).game_id,
            final(self).started_at == old(self).started_at,
            final(self).ended_at == old(self).ended_at,
            final(self).final_status == old(self).final_status,
    {
        let game_move = GameMove::new(player, row, col);
        self.moves.push(game_move);
    }

    /// Marks the game as finished: stamps the end time and the final status.
    pub fn finish(&mut self, status: GameStatus)
        ensures
            final(self).final_status == Some(status),
            final(self).ended_at is Some,
            final(self).game_id == old(self).game_id,
            final(self).started_at == old(self).started_at,
            final(self).moves@ == old(self).moves@,
    {
        self.ended_at = Some(now_millis());
        self.final_status = Some(status);
    }

    /// Replays the log against a fresh game seeded with the log's game id.
    /// Fails with `NotPlayerTurn` as soon as a recorded move names a player
    /// out of turn — before applying that move — and propagates any rules
    /// engine rejection; otherwise returns the reconstructed final state.
    pub fn reconstruct_game(&self) -> (r: Result<GameState, GameError>)
        ensures
            r == spec_replay(self.game_id, self.moves@),
    {
        let mut game = GameState::new_with_id(self.game_id);
        let mut i: usize = 0;
        while i < self.moves.len()
            invariant
                i <= self.moves@.len(),
                spec_replay(self.game_id, self.moves@) == spec_replay_from(
                    game,
                    self.moves@,
                    i as int,
                ),
            decreases self.moves@.len() - i,
        {
            let m = self.moves[i];
            if game.current_turn != m.player {
                return Err(GameError::NotPlayerTurn);
            }
            match game.make_move(m.row, m.col) {
                Ok(()) => {},
                Err(e) => {
                    return Err(e);
                },
            }
            i += 1;
        }
        Ok(game)
    }
}

/// Splitting a replay: running `moves[i..]` is running `moves[i..k]` first
/// and, if that succeeds, the rest from the state it reaches.
proof fn lemma_replay_from_split(s: GameState, moves: Seq<GameMove>, i: int, k: int)
    requires
        0 <= i <= k <= moves.len(),
    ensures
        spec_replay_from(s, moves, i) == match spec_replay_from(s, moves.take(k), i) {
            Ok(t) => spec_replay_from(t, moves, k),
            Err(e) => Err(e),
        },
    decreases k - i,
{
    if i < k {
        assert(moves.take(k)[i] == moves[i]);
        let m = moves[i];
        if s.current_turn == m.player {
            match spec_move(s, m.row, m.col) {
                Ok(t) => {
                    lemma_replay_from_split(t, moves, i + 1, k);
                },
                Err(_) => {},
            }
        }
    }
}

/// Law: a log written down alongside a legally played game replays to that
/// game. If the log so far replays to state `s`, then after the next move is
/// played through the rules engine and appended, the extended log replays to
/// exactly the state the rules engine reached — and to the matching error if
/// the move was out of turn or rejected.
pub proof fn lemma_replay_extends_with_played_move(
    id: u128,
    moves: Seq<GameMove>,
    s: GameState,
    m: GameMove,
)
    requires
        spec_replay(id, moves) == Ok::<GameState, GameError>(s),
    ensures
        spec_replay(id, moves.push(m)) == (if m.player != s.current_turn {
            Err::<GameState, GameError>(GameError::NotPlayerTurn)
        } else {
            spec_move(s, m.row, m.col)
        }),
{
    let all = moves.push(m);
    let n = moves.len() as int;
    assert(all.take(n) =~= moves);
    lemma_replay_from_split(spec_fresh(id), all, 0, n);
    assert(all[n] == m);
    if m.player == s.current_turn {
        match spec_move(s, m.row, m.col) {
            Ok(t) => {
                assert(spec_replay_from(t, all, n + 1) == Ok::<GameState, GameError>(t));
            },
            Err(_) => {},
        }
    }
}

/// Law: a recorded move that names a player out of turn makes the replay
/// fail with `NotPlayerTurn`; the offending move is never applied.
pub proof fn lemma_replay_stops_on_wrong_turn(
    id: u128,
    moves: Seq<GameMove>,
    k: int,
    s: GameState,
)
    requires
        0 <= k < moves.len(),
        spec_replay(id, moves.take(k)) == Ok::<GameState, GameError>(s),
        moves[k].player != s.current_turn,
    ensures
        spec_replay(id, moves) == Err::<GameState, GameError>(GameError::NotPlayerTurn),
{
    lemma_replay_from_split(spec_fresh(id), moves, 0, k);
}

} // verus!
