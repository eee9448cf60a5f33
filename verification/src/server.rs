//! What the HTTP front end asks of the engine: its plain request and summary
//! types, and the decisions its handlers make on a game. The transport, the
//! shared game map and its locking live outside this crate; they hand plain
//! values in and take plain values back.

use vstd::prelude::*;

use crate::ai::{depth_limit, spec_best_move, Difficulty, MinimaxAI};
use crate::error::GameError;
use crate::game::{board_full, spec_move, Cell, GameState, GameStatus};
use crate::player::Player;

verus! {

/// Request to create a game: the mark to move first, when it is not `X`.
#[derive(Debug, Clone, Copy, PartialEq)]
pub struct CreateGameRequest {
    /// Optional starting player (defaults to `X`).
    pub starting_player: Option<Player>,
}

/// Request to place a mark.
#[derive(Debug, Clone, Copy, PartialEq)]
pub struct MakeMoveRequest {
    /// Row index (0-2).
    pub row: usize,
    /// Column index (0-2).
    pub col: usize,
    /// The player making the move.
    pub player: Player,
}

/// Request to let the search engine move.
#[derive(Debug, Clone, Copy, PartialEq)]
pub struct MakeAIMoveRequest {
    /// The difficulty tier to search at.
    pub difficulty: Difficulty,
}

/// One game's identity and where it stands.
#[derive(Debug, Clone, Copy, PartialEq)]
pub struct GameSummary {
    /// The game's identifier.
    pub id: u128,
    /// Where the game stands.
    pub status: GameStatus,
    /// The mark whose turn it is.
    pub current_turn: Player,
}

/// The games known to the server, summarized.
#[derive(Debug, Clone)]
pub struct GamesListResponse {
    /// One summary per game.
    pub games: Vec<GameSummary>,
}

/// Summarizes each given game, in order.
pub fn summarize_games(games: &Vec<GameState>) -> (r: GamesListResponse)
    ensures
        r.games@.len() == games@.len(),
        forall|i: int|
            0 <= i < games@.len() ==> {
                &&& (#[trigger] r.games@[i]).id == games@[i].id
                &&& r.games@[i].status == games@[i].status
                &&& r.games@[i].current_turn == games@[i].current_turn
            },
{
    let mut summaries: Vec<GameSummary> = Vec::new();
    let mut i: usize = 0;
    while i < games.len()
        invariant
            i <= games@.len(),
            summaries@.len() == i,
            forall|k: int|
                0 <= k < i ==> {
                    &&& (#[trigger] summaries@[k]).id == games@[k].id
                    &&& summaries@[k].status == games@[k].status
                    &&& summaries@[k].current_turn == games@[k].current_turn
                },
        decreases games@.len() - i,
    {
        let g = &games[i];
        summaries.push(GameSummary { id: g.id, status: g.status, current_turn: g.current_turn });
        i = i + 1;
    }
    GamesListResponse { games: summaries }
}

/// Creates the game a creation request asks for: a fresh game whose first
/// mover is the requested one, or `X` when none was named.
pub fn new_game_for_request(request: &CreateGameRequest) -> (g: GameState)
    ensures
        g.status == GameStatus::InProgress,
        forall|i: int| 0 <= i < 9 ==> g.board@[i] == Cell::Empty,
        g.current_turn == match request.starting_player {
            Some(p) => p,
            None => Player::X,
        },
{
    let mut game = GameState::new();
    match request.starting_player {
        Some(p) => {
            game.current_turn = p;
        },
        None => {},
    }
    game
}

/// Applies a move request to a game: the request is rejected with
/// `NotPlayerTurn` — before anything is applied — unless it names the side to
/// move; otherwise the move goes through the rules engine.
pub fn apply_move_request(game: &mut GameState, request: &MakeMoveRequest) -> (r: Result<
    (),
    GameError,
>)
    ensures
        old(game).current_turn != request.player ==> r == Err::<(), GameError>(
            GameError::NotPlayerTurn,
        ) && *final(game) == *old(game),
        old(game).current_turn == request.player ==> match r {
            Ok(()) => spec_move(*old(game), request.row, request.col) == Ok::<
                GameState,
                GameError,
            >(*final(game)),
            Err(e) => spec_move(*old(game), request.row, request.col) == Err::<
                GameState,
                GameError,
            >(e) && *final(game) == *old(game),
        },
{
    if game.current_turn != request.player {
        return Err(GameError::NotPlayerTurn);
    }
    game.make_move(request.row, request.col)
}

/// Lets the search engine move for the side to move: picks a move at the
/// requested difficulty and plays it through the rules engine. On a full
/// board nothing can be picked (`NoValidMoves`); on a finished board nothing
/// can be played (`GameAlreadyFinished`); a rejected request leaves the game
/// untouched.
pub fn apply_ai_move(game: &mut GameState, difficulty: Difficulty) -> (r: Result<
    (usize, usize),
    GameError,
>)
    ensures
        board_full(old(game).board@) ==> r == Err::<(usize, usize), GameError>(
            GameError::NoValidMoves,
        ),
        (!board_full(old(game).board@) && old(game).status != GameStatus::InProgress) ==> r
            == Err::<(usize, usize), GameError>(GameError::GameAlreadyFinished),
        r is Err ==> *final(game) == *old(game),
        (old(game).status == GameStatus::InProgress && !board_full(old(game).board@)) ==> (
        r matches Ok(m) && m.0 < 3 && m.1 < 3 && old(game).board@[3 * m.0 + m.1] == Cell::Empty
            && spec_move(*old(game), m.0, m.1) == Ok::<GameState, GameError>(*final(game))),
        (old(game).status == GameStatus::InProgress && !board_full(old(game).board@) && difficulty
            != Difficulty::Easy) ==> (r matches Ok(m) && Some(m) == spec_best_move(
            *old(game),
            depth_limit(difficulty),
            old(game).current_turn,
        )),
{
    let ai = MinimaxAI::new(game.current_turn, difficulty);
    match ai.get_move(game) {
        Err(e) => Err(e),
        Ok((row, col)) => {
            match game.make_move(row, col) {
                Ok(()) => Ok((row, col)),
                Err(e) => Err(e),
            }
        },
    }
}

} // verus!
