use my_game_project::error::GameError;
use my_game_project::game::{Cell, GameState, GameStatus};
use my_game_project::player::Player;

#[test]
fn test_new_game() {
    let game = GameState::new();
    assert_eq!(game.current_turn, Player::X);
    assert_eq!(game.status, GameStatus::InProgress);

    // Check that all cells are empty
    for row in 0..3 {
        for col in 0..3 {
            assert_eq!(game.cell(row, col), Cell::Empty);
        }
    }
}

#[test]
fn test_make_move() {
    let mut game = GameState::new();

    // Make a valid move
    assert!(game.make_move(0, 0).is_ok());
    assert_eq!(game.cell(0, 0), Cell::Occupied(Player::X));
    assert_eq!(game.current_turn, Player::O); // Turn should switch

    // Try to make a move on an occupied cell
    assert!(game.make_move(0, 0).is_err());

    // Try to make a move out of bounds
    assert!(game.make_move(3, 0).is_err());
}

#[test]
fn test_win_conditions() {
    // Test row win
    let mut game = GameState::new();
    game.make_move(0, 0).unwrap(); // X at (0,0)
    game.make_move(1, 0).unwrap(); // O at (1,0)
    game.make_move(0, 1).unwrap(); // X at (0,1)
    game.make_move(1, 1).unwrap(); // O at (1,1)
    game.make_move(0, 2).unwrap(); // X at (0,2)
    assert_eq!(game.status, GameStatus::Won(Player::X));

    // Test column win
    let mut game = GameState::new();
    game.make_move(0, 0).unwrap(); // X at (0,0)
    game.make_move(0, 1).unwrap(); // O at (0,1)
    game.make_move(1, 0).unwrap(); // X at (1,0)
    game.make_move(1, 1).unwrap(); // O at (1,1)
    game.make_move(2, 0).unwrap(); // X at (2,0)
    assert_eq!(game.status, GameStatus::Won(Player::X));

    // Test diagonal win (top-left to bottom-right)
    let mut game = GameState::new();
    game.make_move(0, 0).unwrap(); // X at (0,0)
    game.make_move(0, 1).unwrap(); // O at (0,1)
    game.make_move(1, 1).unwrap(); // X at (1,1)
    game.make_move(0, 2).unwrap(); // O at (0,2)
    game.make_move(2, 2).unwrap(); // X at (2,2)
    assert_eq!(game.status, GameStatus::Won(Player::X));

    // Test diagonal win (top-right to bottom-left)
    let mut game = GameState::new();
    game.make_move(0, 2).unwrap(); // X at (0,2)
    game.make_move(0, 0).unwrap(); // O at (0,0)
    game.make_move(1, 1).unwrap(); // X at (1,1)
    game.make_move(0, 1).unwrap(); // O at (0,1)
    game.make_move(2, 0).unwrap(); // X at (2,0)
    assert_eq!(game.status, GameStatus::Won(Player::X));
}

#[test]
fn test_draw() {
    let mut game = GameState::new();
    // Fill the board in a way that doesn't result in a win
    // X | O | X
    // O | O | X
    // X | X | O
    game.make_move(0, 0).unwrap(); // X at (0,0)
    game.make_move(0, 1).unwrap(); // O at (0,1)
    game.make_move(0, 2).unwrap(); // X at (0,2)
    game.make_move(1, 0).unwrap(); // O at (1,0)
    game.make_move(1, 2).unwrap(); // X at (1,2)
    game.make_move(1, 1).unwrap(); // O at (1,1)
    game.make_move(2, 0).unwrap(); // X at (2,0)
    game.make_move(2, 2).unwrap(); // O at (2,2)
    game.make_move(2, 1).unwrap(); // X at (2,1)
    assert_eq!(game.status, GameStatus::Draw);
}

#[test]
fn test_game_already_finished() {
    let mut game = GameState::new();
    // Create a winning condition
    game.make_move(0, 0).unwrap();
    game.make_move(1, 0).unwrap();
    game.make_move(0, 1).unwrap();
    game.make_move(1, 1).unwrap();
    game.make_move(0, 2).unwrap();
    // Game should be won by X now
    assert_eq!(game.status, GameStatus::Won(Player::X));

    // Try to make another move
    let result = game.make_move(2, 2);
    assert!(result.is_err());
    match result {
        Err(GameError::GameAlreadyFinished) => {}, // Expected
        _ => panic!("Expected GameAlreadyFinished error"),
    }
}

#[test]
fn test_move_changes_exactly_one_cell() {
    let mut game = GameState::new();
    game.make_move(1, 1).unwrap();
    game.make_move(0, 2).unwrap();

    let before: Vec<Cell> = (0..3)
        .flat_map(|r| (0..3).map(move |c| (r, c)))
        .map(|(r, c)| game.cell(r, c))
        .collect();
    assert_eq!(before[3 * 2 + 0], Cell::Empty);

    game.make_move(2, 0).unwrap();

    for row in 0..3 {
        for col in 0..3 {
            if (row, col) == (2, 0) {
                assert_eq!(game.cell(row, col), Cell::Occupied(Player::X));
            } else {
                assert_eq!(game.cell(row, col), before[3 * row + col]);
            }
        }
    }
}

#[test]
fn test_rejected_moves_leave_board_untouched() {
    let mut game = GameState::new();
    game.make_move(0, 0).unwrap();

    let snapshot = game;
    // Occupied cell
    assert_eq!(game.make_move(0, 0), Err(GameError::CellOccupied(0, 0)));
    assert_eq!(game, snapshot);
    // Off the board
    assert_eq!(game.make_move(0, 7), Err(GameError::InvalidPosition(0, 7)));
    assert_eq!(game, snapshot);

    // Finished game
    let mut won = GameState::new();
    won.make_move(0, 0).unwrap();
    won.make_move(1, 0).unwrap();
    won.make_move(0, 1).unwrap();
    won.make_move(1, 1).unwrap();
    won.make_move(0, 2).unwrap();
    let won_snapshot = won;
    assert_eq!(won.make_move(2, 2), Err(GameError::GameAlreadyFinished));
    assert_eq!(won, won_snapshot);
}

#[test]
fn test_top_row_win_leaves_turn_unchanged() {
    let mut game = GameState::new();
    game.make_move(0, 0).unwrap(); // X
    game.make_move(1, 0).unwrap(); // O
    game.make_move(0, 1).unwrap(); // X
    game.make_move(1, 1).unwrap(); // O
    game.make_move(0, 2).unwrap(); // X completes the top row
    assert_eq!(game.status, GameStatus::Won(Player::X));
    assert_eq!(game.current_turn, Player::X);
    assert_eq!(game.cell(0, 0), Cell::Occupied(Player::X));
    assert_eq!(game.cell(0, 1), Cell::Occupied(Player::X));
    assert_eq!(game.cell(0, 2), Cell::Occupied(Player::X));
}

#[test]
fn test_opponent() {
    assert_eq!(Player::X.opponent(), Player::O);
    assert_eq!(Player::O.opponent(), Player::X);
}
