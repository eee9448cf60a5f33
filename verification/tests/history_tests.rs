use my_game_project::error::GameError;
use my_game_project::game::{GameState, GameStatus};
use my_game_project::history::GameHistory;
use my_game_project::player::Player;

/// Plays the given moves through the rules engine while recording them, and
/// returns the final state together with its history.
fn play_and_record(moves: &[(usize, usize)]) -> (GameState, GameHistory) {
    let mut game = GameState::new();
    let mut history = game.create_history();
    for &(row, col) in moves {
        let mover = game.current_turn;
        game.make_move(row, col).unwrap();
        history.add_move(mover, row, col);
    }
    (game, history)
}

#[test]
fn test_reconstruct_matches_played_game() {
    let (game, history) = play_and_record(&[(0, 0), (1, 0), (0, 1), (1, 1), (0, 2)]);
    assert_eq!(game.status, GameStatus::Won(Player::X));

    let rebuilt = history.reconstruct_game().unwrap();
    assert_eq!(rebuilt.id, game.id);
    assert_eq!(rebuilt.status, game.status);
    assert_eq!(rebuilt.current_turn, game.current_turn);
    for row in 0..3 {
        for col in 0..3 {
            assert_eq!(rebuilt.cell(row, col), game.cell(row, col));
        }
    }
}

#[test]
fn test_reconstruct_full_draw_game() {
    let (game, history) = play_and_record(&[
        (0, 0),
        (0, 1),
        (0, 2),
        (1, 0),
        (1, 2),
        (1, 1),
        (2, 0),
        (2, 2),
        (2, 1),
    ]);
    assert_eq!(game.status, GameStatus::Draw);

    let rebuilt = history.reconstruct_game().unwrap();
    assert_eq!(rebuilt.status, GameStatus::Draw);
    for row in 0..3 {
        for col in 0..3 {
            assert_eq!(rebuilt.cell(row, col), game.cell(row, col));
        }
    }
}

#[test]
fn test_reconstruct_rejects_wrong_turn() {
    let mut history = GameHistory::new(7);
    history.add_move(Player::X, 0, 0);
    // O's turn now, but the log claims X moved again.
    history.add_move(Player::X, 1, 1);
    history.add_move(Player::O, 2, 2);

    assert_eq!(history.reconstruct_game(), Err(GameError::NotPlayerTurn));
}

#[test]
fn test_reconstruct_propagates_rules_errors() {
    // The same cell twice, each time by the expected mover.
    let mut history = GameHistory::new(7);
    history.add_move(Player::X, 0, 0);
    history.add_move(Player::O, 0, 0);
    assert_eq!(history.reconstruct_game(), Err(GameError::CellOccupied(0, 0)));

    // A move off the board.
    let mut history = GameHistory::new(7);
    history.add_move(Player::X, 0, 5);
    assert_eq!(history.reconstruct_game(), Err(GameError::InvalidPosition(0, 5)));

    // A move after the game has been won.
    let (_, mut history) = {
        let mut game = GameState::new_with_id(7);
        let mut h = GameHistory::new(7);
        for &(row, col) in &[(0usize, 0usize), (1, 0), (0, 1), (1, 1), (0, 2)] {
            let mover = game.current_turn;
            game.make_move(row, col).unwrap();
            h.add_move(mover, row, col);
        }
        (game, h)
    };
    history.add_move(Player::X, 2, 2);
    assert_eq!(history.reconstruct_game(), Err(GameError::GameAlreadyFinished));
}

#[test]
fn test_empty_history_reconstructs_fresh_game() {
    let history = GameHistory::new(42);
    let game = history.reconstruct_game().unwrap();
    assert_eq!(game.id, 42);
    assert_eq!(game.current_turn, Player::X);
    assert_eq!(game.status, GameStatus::InProgress);
    for row in 0..3 {
        for col in 0..3 {
            assert_eq!(game.cell(row, col), my_game_project::game::Cell::Empty);
        }
    }
}

#[test]
fn test_finish_stamps_status() {
    let mut history = GameHistory::new(1);
    assert!(history.ended_at.is_none());
    assert!(history.final_status.is_none());
    history.finish(GameStatus::Draw);
    assert!(history.ended_at.is_some());
    assert_eq!(history.final_status, Some(GameStatus::Draw));
}

#[test]
fn test_add_move_appends_in_order() {
    let mut history = GameHistory::new(9);
    history.add_move(Player::X, 0, 0);
    history.add_move(Player::O, 1, 1);
    assert_eq!(history.moves.len(), 2);
    assert_eq!(history.moves[0].player, Player::X);
    assert_eq!((history.moves[0].row, history.moves[0].col), (0, 0));
    assert_eq!(history.moves[1].player, Player::O);
    assert_eq!((history.moves[1].row, history.moves[1].col), (1, 1));
}
