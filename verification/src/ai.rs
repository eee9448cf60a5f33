//! The search engine: adversarial move selection over the rules engine.
//!
//! A difficulty tier maps to a search depth limit. The easy tier degenerates
//! to a time-seeded choice among the legal moves; the other tiers run a
//! depth-limited exhaustive minimax whose value — and the move chosen from it
//! — is pinned down by [`spec_minimax`] and [`spec_best_move`]: candidate
//! cells are enumerated row-major, a move is kept only when it scores
//! strictly better than the best seen so far, and terminal scores are
//! depth-adjusted so that faster wins and slower losses are preferred.

use vstd::prelude::*;

use crate::error::GameError;
use crate::game::{board_full, spec_apply, Cell, GameState, GameStatus};
use crate::player::Player;

verus! {

/// Difficulty tiers of the search engine.
#[derive(Debug, Clone, Copy, PartialEq, Eq, Structural)]
pub enum Difficulty {
    /// A time-seeded choice among the legal moves, no lookahead.
    Easy,
    /// Minimax, three plies deep.
    Medium,
    /// Minimax over the full game tree (nine plies: the whole board).
    Hard,
}

/// The search depth limit of each difficulty tier.
pub open spec fn depth_limit(d: Difficulty) -> int {
    match d {
        Difficulty::Easy => 1,
        Difficulty::Medium => 3,
        Difficulty::Hard => 9,
    }
}

/// The raw evaluation of a state from `me`'s point of view: `10` when `me`
/// has won, `-10` when the opponent has, `0` for a draw or an unfinished
/// game.
pub open spec fn spec_evaluate(s: GameState, me: Player) -> int {
    match s.status {
        GameStatus::Won(p) => if p == me {
            10
        } else {
            -10
        },
        GameStatus::Draw => 0,
        GameStatus::InProgress => 0,
    }
}

/// The minimax value of `s` at `depth` plies below the root, searching to
/// `max_depth`: terminal states and the depth horizon evaluate to the
/// depth-adjusted score `spec_evaluate(s, me) - depth`; anywhere else the
/// maximizing (resp. minimizing) side takes the greatest (resp. least) value
/// over all empty cells, enumerated row-major.
pub open spec fn spec_minimax(
    s: GameState,
    depth: int,
    max_depth: int,
    maximizing: bool,
    me: Player,
) -> int
    decreases max_depth - depth, 10int,
{
    if s.status != GameStatus::InProgress || depth >= max_depth {
        spec_evaluate(s, me) - depth
    } else {
        spec_minimax_scan(
            s,
            depth,
            max_depth,
            maximizing,
            me,
            0,
            if maximizing {
                i32::MIN as int
            } else {
                i32::MAX as int
            },
        )
    }
}

/// Folds the minimax choice over the cells `idx..9` of `s`, carrying the
/// best value seen so far in `best`.
pub open spec fn spec_minimax_scan(
    s: GameState,
    depth: int,
    max_depth: int,
    maximizing: bool,
    me: Player,
    idx: int,
    best: int,
) -> int
    decreases max_depth - depth, 9 - idx,
{
    if idx < 0 || idx >= 9 || depth >= max_depth {
        best
    } else {
        let next = if s.board@[idx] == Cell::Empty {
            let child = spec_minimax(
                spec_apply(s, idx / 3, idx % 3),
                depth + 1,
                max_depth,
                !maximizing,
                me,
            );
            if maximizing {
                if child > best {
                    child
                } else {
                    best
                }
            } else {
                if child < best {
                    child
                } else {
                    best
                }
            }
        } else {
            best
        };
        spec_minimax_scan(s, depth, max_depth, maximizing, me, idx + 1, next)
    }
}

/// The top-level scan of `spec_best_move` over the cells `idx..9`: each empty
/// cell is scored by the minimax value of the state it leads to (the next ply
/// is the opponent's), and the carried move is replaced only by a strictly
/// greater score, so the earliest cell in row-major order wins ties.
pub open spec fn spec_best_scan(
    s: GameState,
    max_depth: int,
    me: Player,
    idx: int,
    best_score: int,
    best: Option<(usize, usize)>,
) -> (int, Option<(usize, usize)>)
    decreases 9 - idx,
{
    if idx < 0 || idx >= 9 {
        (best_score, best)
    } else if s.board@[idx] == Cell::Empty {
        let score = spec_minimax(spec_apply(s, idx / 3, idx % 3), 0, max_depth, false, me);
        if score > best_score {
            spec_best_scan(
                s,
                max_depth,
                me,
                idx + 1,
                score,
                Some((((idx / 3) as usize), ((idx % 3) as usize))),
            )
        } else {
            spec_best_scan(s, max_depth, me, idx + 1, best_score, best)
        }
    } else {
        spec_best_scan(s, max_depth, me, idx + 1, best_score, best)
    }
}

/// The move the search keeps for `me` on state `s`: the first empty cell in
/// row-major order whose score is strictly greater than every score seen
/// before it.
pub open spec fn spec_best_move(s: GameState, max_depth: int, me: Player) -> Option<
    (usize, usize),
> {
    spec_best_scan(s, max_depth, me, 0, i32::MIN as int, None).1
}

/// The board is empty exactly at index `i`.
pub open spec fn only_empty_at(b: Seq<Cell>, i: int) -> bool {
    &&& 0 <= i < 9
    &&& b[i] == Cell::Empty
    &&& forall|j: int| 0 <= j < 9 && j != i ==> b[j] != Cell::Empty
}

/// The minimax value always lies in the depth-adjusted evaluation range:
/// no branch of the search can fall back to the fold's sentinel, because an
/// in-progress state always offers a move.
proof fn lemma_minimax_bounds(s: GameState, depth: int, max_depth: int, maximizing: bool, me: Player)
    requires
        0 <= depth <= max_depth <= 9,
        s.status == GameStatus::InProgress ==> !board_full(s.board@),
    ensures
        -19 <= spec_minimax(s, depth, max_depth, maximizing, me) <= 10,
    decreases max_depth - depth, 10int,
{
    if s.status == GameStatus::InProgress && depth < max_depth {
        assert(exists|j: int| 0 <= j < 9 && s.board@[j] == Cell::Empty) by {
            assert(!board_full(s.board@));
        }
        lemma_minimax_scan_bounds(
            s,
            depth,
            max_depth,
            maximizing,
            me,
            0,
            if maximizing {
                i32::MIN as int
            } else {
                i32::MAX as int
            },
        );
    }
}

/// The fold over the cells `idx..9` stays in the evaluation range, provided
/// the sentinel it starts from is displaced by at least one empty cell.
proof fn lemma_minimax_scan_bounds(
    s: GameState,
    depth: int,
    max_depth: int,
    maximizing: bool,
    me: Player,
    idx: int,
    best: int,
)
    requires
        0 <= depth < max_depth <= 9,
        s.status == GameStatus::InProgress,
        0 <= idx <= 9,
        maximizing ==> (best == i32::MIN as int || -19 <= best <= 10),
        !maximizing ==> (best == i32::MAX as int || -19 <= best <= 10),
        (best == i32::MIN as int || best == i32::MAX as int) ==> exists|j: int|
            idx <= j < 9 && s.board@[j] == Cell::Empty,
    ensures
        -19 <= spec_minimax_scan(s, depth, max_depth, maximizing, me, idx, best) <= 10,
    decreases max_depth - depth, 9 - idx,
{
    if idx >= 9 {
    } else if s.board@[idx] == Cell::Empty {
        let child_state = spec_apply(s, idx / 3, idx % 3);
        lemma_minimax_bounds(child_state, depth + 1, max_depth, !maximizing, me);
        let child = spec_minimax(child_state, depth + 1, max_depth, !maximizing, me);
        let next = if maximizing {
            if child > best {
                child
            } else {
                best
            }
        } else {
            if child < best {
                child
            } else {
                best
            }
        };
        lemma_minimax_scan_bounds(s, depth, max_depth, maximizing, me, idx + 1, next);
    } else {
        if best == i32::MIN as int || best == i32::MAX as int {
            let j = choose|j: int| idx <= j < 9 && s.board@[j] == Cell::Empty;
            assert(idx + 1 <= j < 9 && s.board@[j] == Cell::Empty);
        }
        lemma_minimax_scan_bounds(s, depth, max_depth, maximizing, me, idx + 1, best);
    }
}

/// A search-driven participant: the mark it plays and the difficulty tier it
/// searches at.
pub struct MinimaxAI {
    player_type: Player,
    difficulty: Difficulty,
}

impl MinimaxAI {
    /// The mark this engine plays for.
    pub closed spec fn spec_player_type(self) -> Player {
        self.player_type
    }

    /// The difficulty tier this engine searches at.
    pub closed spec fn spec_difficulty(self) -> Difficulty {
        self.difficulty
    }

    /// Creates a search engine for the given mark and difficulty tier.
    pub fn new(player_type: Player, difficulty: Difficulty) -> (r: Self)
        ensures
            r.spec_player_type() == player_type,
            r.spec_difficulty() == difficulty,
    {
        Self { player_type, difficulty }
    }

    /// The mark this engine plays for.
    pub fn get_player_type(&self) -> (r: Player)
        ensures
            r == self.spec_player_type(),
    {
        self.player_type
    }

    /// The search depth limit of this engine's difficulty tier.
    pub fn get_max_depth(&self) -> (d: usize)
        ensures
            d as int == depth_limit(self.spec_difficulty()),
    {
        match self.difficulty {
            Difficulty::Easy => 1,
            Difficulty::Medium => 3,
            Difficulty::Hard => 9,
        }
    }

    /// The raw evaluation of a state from this engine's point of view.
    fn evaluate(&self, game: &GameState) -> (r: i32)
        ensures
            r as int == spec_evaluate(*game, self.spec_player_type()),
    {
        match game.status {
            GameStatus::Won(player) => if player == self.player_type {
                10
            } else {
                -10
            },
            GameStatus::Draw => 0,
            GameStatus::InProgress => 0,
        }
    }

    /// The depth-limited minimax recursion: computes exactly
    /// [`spec_minimax`] by enumerating the empty cells row-major and cloning
    /// the state for each candidate move.
    fn minimax(&self, game: &GameState, depth: usize, max_depth: usize, is_maximizing: bool) -> (r:
        i32)
        requires
            depth <= max_depth <= 9,
        ensures
            r as int == spec_minimax(
                *game,
                depth as int,
                max_depth as int,
                is_maximizing,
                self.spec_player_type(),
            ),
        decreases max_depth - depth,
    {
        if !(game.status == GameStatus::InProgress) || depth == max_depth {
            let e = self.evaluate(game);
            return e - depth as i32;
        }
        let ghost me = self.spec_player_type();
        let ghost init: int = if is_maximizing {
            i32::MIN as int
        } else {
            i32::MAX as int
        };
        let mut best: i32 = if is_maximizing {
            i32::MIN
        } else {
            i32::MAX
        };
        let mut idx: usize = 0;
        while idx < 9
            invariant
                idx <= 9,
                depth < max_depth <= 9,
                game.status == GameStatus::InProgress,
                spec_minimax_scan(
                    *game,
                    depth as int,
                    max_depth as int,
                    is_maximizing,
                    me,
                    0,
                    init,
                ) == spec_minimax_scan(
                    *game,
                    depth as int,
                    max_depth as int,
                    is_maximizing,
                    me,
                    idx as int,
                    best as int,
                ),
                me == self.spec_player_type(),
                init == if is_maximizing {
                    i32::MIN as int
                } else {
                    i32::MAX as int
                },
            decreases 9 - idx,
        {
            let row = idx / 3;
            let col = idx % 3;
            match game.board[idx] {
                Cell::Empty => {
                    let mut game_copy = *game;
                    match game_copy.make_move(row, col) {
                        Ok(()) => {
                            let score = self.minimax(&game_copy, depth + 1, max_depth, !is_maximizing);
                            if is_maximizing {
                                if score > best {
                                    best = score;
                                }
                            } else {
                                if score < best {
                                    best = score;
                                }
                            }
                        },
                        Err(_) => {},
                    }
                },
                Cell::Occupied(_) => {},
            }
            idx = idx + 1;
        }
        best
    }

    /// Picks the move to play on `game`.
    ///
    /// The easy tier picks a time-seeded choice among the empty cells,
    /// whatever the game's status; the other tiers run the minimax search and
    /// keep the first empty cell, row-major, whose score strictly beats every
    /// score before it ([`spec_best_move`]). `NoValidMoves` is reported
    /// exactly when the board is full; the searching tiers also reject a
    /// finished game.
    pub fn get_move(&self, game: &GameState) -> (r: Result<(usize, usize), GameError>)
        ensures
            board_full(game.board@) <==> r == Err::<(usize, usize), GameError>(
                GameError::NoValidMoves,
            ),
            r matches Ok(m) ==> m.0 < 3 && m.1 < 3 && game.board@[3 * m.0 + m.1] == Cell::Empty,
            (self.spec_difficulty() != Difficulty::Easy && !board_full(game.board@) && game.status
                != GameStatus::InProgress) ==> r == Err::<(usize, usize), GameError>(
                GameError::GameAlreadyFinished,
            ),
            (self.spec_difficulty() != Difficulty::Easy && game.status == GameStatus::InProgress
                && !board_full(game.board@)) ==> (spec_best_move(
                *game,
                depth_limit(self.spec_difficulty()),
                self.spec_player_type(),
            ) matches Some(m) && r == Ok::<(usize, usize), GameError>(m)),
            (self.spec_difficulty() == Difficulty::Easy && !board_full(game.board@)) ==> r is Ok,
            forall|row: usize, col: usize|
                self.spec_difficulty() == Difficulty::Easy && row < 3 && col < 3 && only_empty_at(
                    game.board@,
                    3 * row + col,
                ) ==> r == Ok::<(usize, usize), GameError>((row, col)),
    {
        self.find_best_move(game)
    }

    /// The searching tiers' move choice; the easy tier falls through to
    /// [`MinimaxAI::find_random_move`].
    fn find_best_move(&self, game: &GameState) -> (r: Result<(usize, usize), GameError>)
        ensures
            board_full(game.board@) <==> r == Err::<(usize, usize), GameError>(
                GameError::NoValidMoves,
            ),
            r matches Ok(m) ==> m.0 < 3 && m.1 < 3 && game.board@[3 * m.0 + m.1] == Cell::Empty,
            (self.spec_difficulty() != Difficulty::Easy && !board_full(game.board@) && game.status
                != GameStatus::InProgress) ==> r == Err::<(usize, usize), GameError>(
                GameError::GameAlreadyFinished,
            ),
            (self.spec_difficulty() != Difficulty::Easy && game.status == GameStatus::InProgress
                && !board_full(game.board@)) ==> (spec_best_move(
                *game,
                depth_limit(self.spec_difficulty()),
                self.spec_player_type(),
            ) matches Some(m) && r == Ok::<(usize, usize), GameError>(m)),
            (self.spec_difficulty() == Difficulty::Easy && !board_full(game.board@)) ==> r is Ok,
            forall|row: usize, col: usize|
                self.spec_difficulty() == Difficulty::Easy && row < 3 && col < 3 && only_empty_at(
                    game.board@,
                    3 * row + col,
                ) ==> r == Ok::<(usize, usize), GameError>((row, col)),
    {
        if self.difficulty == Difficulty::Easy {
            return self.find_random_move(game);
        }
        let max_depth = self.get_max_depth();
        let ghost me = self.spec_player_type();
        let ghost md = max_depth as int;
        let mut best_score: i32 = i32::MIN;
        let mut best_move: Option<(usize, usize)> = None;
        let mut idx: usize = 0;
        while idx < 9
            invariant
                idx <= 9,
                self.spec_difficulty() != Difficulty::Easy,
                1 <= max_depth <= 9,
                md == max_depth as int,
                md == depth_limit(self.spec_difficulty()),
                me == self.spec_player_type(),
                spec_best_scan(*game, md, me, 0, i32::MIN as int, None) == spec_best_scan(
                    *game,
                    md,
                    me,
                    idx as int,
                    best_score as int,
                    best_move,
                ),
                best_move is None ==> best_score == i32::MIN && (forall|i: int|
                    0 <= i < idx ==> game.board@[i] != Cell::Empty),
                best_move matches Some(m) ==> m.0 < 3 && m.1 < 3 && game.board@[3 * m.0 + m.1]
                    == Cell::Empty,
                best_move is Some ==> game.status == GameStatus::InProgress,
            decreases 9 - idx,
        {
            let row = idx / 3;
            let col = idx % 3;
            match game.board[idx] {
                Cell::Empty => {
                    let mut game_copy = *game;
                    match game_copy.make_move(row, col) {
                        Ok(()) => {
                            proof {
                                lemma_minimax_bounds(game_copy, 0, md, false, me);
                            }
                            let score = self.minimax(&game_copy, 0, max_depth, false);
                            if score > best_score {
                                best_score = score;
                                best_move = Some((row, col));
                            }
                        },
                        Err(e) => {
                            return Err(e);
                        },
                    }
                },
                Cell::Occupied(_) => {},
            }
            idx = idx + 1;
        }
        match best_move {
            Some(m) => Ok(m),
            None => Err(GameError::NoValidMoves),
        }
    }

    /// The easy tier: gathers the empty cells row-major and picks one by a
    /// time-derived index. The game's status is not consulted.
    fn find_random_move(&self, game: &GameState) -> (r: Result<(usize, usize), GameError>)
        ensures
            board_full(game.board@) <==> r == Err::<(usize, usize), GameError>(
                GameError::NoValidMoves,
            ),
            !board_full(game.board@) ==> r is Ok,
            r matches Ok(m) ==> m.0 < 3 && m.1 < 3 && game.board@[3 * m.0 + m.1] == Cell::Empty,
            forall|row: usize, col: usize|
                row < 3 && col < 3 && only_empty_at(game.board@, 3 * row + col) ==> r == Ok::<
                    (usize, usize),
                    GameError,
                >((row, col)),
    {
        let mut empty_cells: Vec<(usize, usize)> = Vec::new();
        let mut idx: usize = 0;
        while idx < 9
            invariant
                idx <= 9,
                forall|k: int|
                    0 <= k < empty_cells@.len() ==> (#[trigger] empty_cells@[k]).0 < 3
                        && empty_cells@[k].1 < 3 && game.board@[
                        3 * empty_cells@[k].0 + empty_cells@[k].1
                    ] == Cell::Empty,
                forall|i: int|
                    0 <= i < idx && game.board@[i] == Cell::Empty ==> exists|k: int|
                        0 <= k < empty_cells@.len() && 3 * (#[trigger] empty_cells@[k]).0
                            + empty_cells@[k].1 == i,
            decreases 9 - idx,
        {
            let row = idx / 3;
            let col = idx % 3;
            match game.board[idx] {
                Cell::Empty => {
                    let ghost prev = empty_cells@;
                    empty_cells.push((row, col));
                    proof {
                        assert forall|i: int|
                            0 <= i < idx + 1 && game.board@[i] == Cell::Empty implies exists|k: int|
                            0 <= k < empty_cells@.len() && 3 * (#[trigger] empty_cells@[k]).0
                                + empty_cells@[k].1 == i by {
                            if i == idx {
                                assert(empty_cells@[prev.len() as int] == (row, col));
                                assert(3 * (empty_cells@[prev.len() as int]).0 + (
                                empty_cells@[prev.len() as int]).1 == i);
                            } else {
                                let k = choose|k: int|
                                    0 <= k < prev.len() && 3 * (#[trigger] prev[k]).0 + prev[k].1
                                        == i;
                                assert(empty_cells@[k] == prev[k]);
                            }
                        }
                    }
                },
                Cell::Occupied(_) => {},
            }
            idx = idx + 1;
        }

        if empty_cells.len() == 0 {
            assert forall|i: int| 0 <= i < 9 implies game.board@[i] != Cell::Empty by {
                if game.board@[i] == Cell::Empty {
                    assert(exists|k: int|
                        0 <= k < empty_cells@.len() && 3 * (#[trigger] empty_cells@[k]).0
                            + empty_cells@[k].1 == i);
                }
            }
            return Err(GameError::NoValidMoves);
        }

        let entropy = clock_entropy();
        let random_index = (entropy as usize) % empty_cells.len();
        let m = empty_cells[random_index];
        Ok(m)
    }
}

/// Relies on `chrono::Utc::now` (read through
/// `DateTime::timestamp_subsec_nanos`): a time-derived value with no promise,
/// used only to vary the easy tier's choice among the legal moves.
#[verifier::external_body]
fn clock_entropy() -> u32 {
    chrono::Utc::now().timestamp_subsec_nanos()
}

} // verus!
