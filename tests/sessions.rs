use ai_arena::agent::{AgentError, MoveResponse, MoveSchema};
use ai_arena::games::connect_four::{ConnectFour, ConnectFourConfig, Player as Colour};
use ai_arena::games::rock_paper_scissors::{RockPaperScissors, RockPaperScissorsConfig};
use ai_arena::games::stats::GameSnapshot;
use ai_arena::games::tic_tac_toe::{Player, TicTacToe, TicTacToeConfig};

fn answer(text: &str) -> Result<MoveResponse, AgentError> {
    Ok(MoveResponse { chosen_move: serde_json::from_str(text).unwrap(), diagnostics: None })
}

fn cell(row: u32, col: u32) -> Result<MoveResponse, AgentError> {
    answer(&format!(r#"{{"row": {}, "col": {}}}"#, row, col))
}

fn column(col: u32) -> Result<MoveResponse, AgentError> {
    answer(&format!(r#"{{"column": {}}}"#, col))
}

fn hand(name: &str) -> Result<MoveResponse, AgentError> {
    answer(&format!(r#"{{"choice": "{}"}}"#, name))
}

#[test]
fn tic_tac_toe_top_row_wins_on_fifth_turn() {
    let mut game = TicTacToe::new(TicTacToeConfig::default());
    let first = [(0, 0), (0, 1), (0, 2)];
    let second = [(1, 0), (1, 1)];
    let (mut i, mut j) = (0, 0);
    while !game.is_finished() {
        let agent = game.current_agent_index();
        let request = game.start_turn();
        assert_eq!(request.expected_move_schema, MoveSchema::Cell { max_index: 2 });
        let (name, mv) = if agent == 0 {
            i += 1;
            ("alpha", first[i - 1])
        } else {
            j += 1;
            ("beta", second[j - 1])
        };
        assert!(game.execute_turn(name, cell(mv.0, mv.1), 7).is_ok());
    }
    assert_eq!(game.state.turn_number, 5);
    assert_eq!(game.state.winner, Some(Player::X));
    assert!(game.state.game_over);
    assert_eq!(game.stats.turns.len(), 5);
    assert!(game.stats.turns.iter().all(|t| t.move_valid));
    assert_eq!(game.stats.invalid_moves, 0);
    let result = game.finish(99);
    assert_eq!(result.winner, Some("alpha (X)".to_string()));
    assert_eq!(result.stats.total_duration_ms, 99);
    assert_eq!(result.error, None);
}

#[test]
fn tic_tac_toe_refused_move_keeps_player_and_board() {
    let mut game = TicTacToe::new(TicTacToeConfig::default());
    game.start_turn();
    assert!(game.execute_turn("alpha", cell(1, 1), 3).is_ok());
    game.start_turn();
    let err = game.execute_turn("beta", cell(1, 1), 4).unwrap_err();
    assert_eq!(err, "Invalid move: row=1, col=1");
    assert_eq!(game.state.current_player, Player::O);
    assert_eq!(game.stats.invalid_moves, 1);
    let record = &game.stats.turns[1];
    assert!(!record.move_valid);
    assert_eq!(record.turn_number, 2);
    assert_eq!(record.player, "beta");
    assert_eq!(record.error_message, Some("Invalid move: row=1, col=1".to_string()));
    match (&record.state_before, &record.state_after) {
        (GameSnapshot::TicTacToe { state: before, .. }, GameSnapshot::TicTacToe { state: after, .. }) => {
            assert_eq!(before.board, after.board);
        },
        _ => panic!("tic-tac-toe snapshots expected"),
    }
    let out_of_board = game.start_turn();
    assert_eq!(out_of_board.turn_index, 3);
    let err = game.execute_turn("beta", cell(7, 0), 1).unwrap_err();
    assert_eq!(err, "Invalid move: row=7, col=0");
}

#[test]
fn tic_tac_toe_valid_move_adds_one_mark() {
    let mut game = TicTacToe::new(TicTacToeConfig::default());
    game.start_turn();
    game.execute_turn("alpha", cell(2, 1), 1).unwrap();
    match (&game.stats.turns[0].state_before, &game.stats.turns[0].state_after) {
        (GameSnapshot::TicTacToe { state: before, .. }, GameSnapshot::TicTacToe { state: after, .. }) => {
            let mut changed = 0;
            for r in 0..3 {
                for c in 0..3 {
                    if before.board[r][c] != after.board[r][c] {
                        changed += 1;
                        assert_eq!(before.board[r][c], None);
                        assert_eq!(after.board[r][c], Some(Player::X));
                        assert_eq!((r, c), (2, 1));
                    }
                }
            }
            assert_eq!(changed, 1);
        },
        _ => panic!("tic-tac-toe snapshots expected"),
    }
}

#[test]
fn tic_tac_toe_agent_failure_is_recorded_as_invalid() {
    let mut game = TicTacToe::new(TicTacToeConfig::default());
    game.start_turn();
    let err = game.execute_turn("alpha", Err(AgentError::Internal("down".to_string())), 2).unwrap_err();
    assert_eq!(err, "Agent error: internal error: down");
    assert_eq!(game.state.turn_number, 1);
    assert_eq!(game.stats.turns.len(), 1);
    assert_eq!(game.stats.invalid_moves, 1);
    let record = &game.stats.turns[0];
    assert!(!record.move_valid);
    assert_eq!(record.player, "alpha");
    assert_eq!(record.error_message, Some("Agent error: internal error: down".to_string()));
    assert_eq!(record.move_made, serde_json::Value::Null);
    assert_eq!(game.state.current_player, Player::X);
    assert!(game.state.board.iter().all(|row| row.iter().all(|c| c.is_none())));

    game.start_turn();
    let err = game.execute_turn("alpha", answer(r#"{"row": 0}"#), 2).unwrap_err();
    assert_eq!(err, "Missing or invalid 'col' field");
    game.start_turn();
    let err = game.execute_turn("alpha", answer(r#"{"row": -1, "col": 0}"#), 2).unwrap_err();
    assert_eq!(err, "Missing or invalid 'row' field");
    assert_eq!(game.state.turn_number, 3);
    assert_eq!(game.stats.turns.len(), 3);
    assert_eq!(game.stats.invalid_moves, 3);
    assert_eq!(game.stats.turns[2].error_message, Some("Missing or invalid 'row' field".to_string()));
    assert_eq!(game.stats.turns[2].move_made, serde_json::from_str::<serde_json::Value>(r#"{"row": -1, "col": 0}"#).unwrap());
    assert_eq!(game.state.current_player, Player::X);
    assert!(!game.state.game_over);
}

#[test]
fn connect_four_agent_failure_is_recorded_as_invalid() {
    let mut game = ConnectFour::new(ConnectFourConfig::default());
    game.start_turn();
    let err = game.execute_turn("red", Err(AgentError::InvalidResponse("junk".to_string())), 1).unwrap_err();
    assert_eq!(err, "Agent error: invalid response: junk");
    game.start_turn();
    let err = game.execute_turn("red", answer(r#"{"column": "two"}"#), 1).unwrap_err();
    assert_eq!(err, "Missing or invalid 'column' field");
    assert_eq!(game.stats.turns.len(), 2);
    assert_eq!(game.stats.invalid_moves, 2);
    assert!(game.stats.turns.iter().all(|t| !t.move_valid));
    assert_eq!(game.state.current_player, Colour::Red);
    assert!(game.state.board.iter().all(|row| row.iter().all(|c| c.is_none())));
}

#[test]
fn tic_tac_toe_full_board_is_a_draw() {
    let mut game = TicTacToe::new(TicTacToeConfig::default());
    let order = [(0, 0), (0, 1), (0, 2), (1, 1), (1, 0), (1, 2), (2, 1), (2, 0), (2, 2)];
    for (k, (r, c)) in order.iter().enumerate() {
        assert!(!game.is_finished());
        game.start_turn();
        game.execute_turn(if k % 2 == 0 { "alpha" } else { "beta" }, cell(*r, *c), 1).unwrap();
    }
    assert!(game.is_finished());
    assert!(game.stats.draw);
    assert_eq!(game.stats.winner, None);
    let result = game.finish(5);
    assert_eq!(result.winner, None);
    assert!(result.stats.draw);
}

#[test]
fn connect_four_full_column_is_refused() {
    let mut game = ConnectFour::new(ConnectFourConfig::default());
    for k in 0..6 {
        let request = game.start_turn();
        assert_eq!(request.turn_index, k + 1);
        let name = if k % 2 == 0 { "red" } else { "yellow" };
        assert!(game.execute_turn(name, column(0), 1).is_ok());
    }
    assert!(!game.state.game_over);
    assert_eq!(game.state.current_player, Colour::Red);
    let before = game.state.board.clone();
    game.start_turn();
    let err = game.execute_turn("red", column(0), 1).unwrap_err();
    assert_eq!(err, "Invalid move: column=0 (column full or out of bounds)");
    assert_eq!(game.state.board, before);
    assert_eq!(game.stats.invalid_moves, 1);
    assert_eq!(game.stats.turns.len(), 7);
    assert!(!game.stats.turns[6].move_valid);
    assert_eq!(game.state.current_player, Colour::Red);
}

#[test]
fn connect_four_vertical_four_wins() {
    let mut game = ConnectFour::new(ConnectFourConfig::default());
    let moves = [3, 4, 3, 4, 3, 4, 3];
    for (k, c) in moves.iter().enumerate() {
        game.start_turn();
        game.execute_turn(if k % 2 == 0 { "red" } else { "yellow" }, column(*c), 1).unwrap();
    }
    assert!(game.is_finished());
    assert_eq!(game.state.winner, Some(Colour::Red));
    assert_eq!(game.stats.winner, Some("red (Red)".to_string()));
    let err = {
        let mut other = ConnectFour::new(ConnectFourConfig::default());
        other.start_turn();
        other.execute_turn("red", answer(r#"{"col": 1}"#), 1).unwrap_err()
    };
    assert_eq!(err, "Missing or invalid 'column' field");
}

#[test]
fn rock_beats_scissors_in_two_rounds() {
    let mut game = RockPaperScissors::new(RockPaperScissorsConfig { rounds: 3 });
    let mut rounds = 0;
    while !game.is_finished() {
        let request = game.start_round();
        assert_eq!(request.expected_move_schema, MoveSchema::Choice);
        let first = hand("rock");
        let second = if RockPaperScissors::needs_second_move(&first) { Some(hand("scissors")) } else { None };
        game.play_round("alpha", "beta", first, second, 10).unwrap();
        rounds += 1;
    }
    assert_eq!(rounds, 2);
    assert_eq!(game.state.round, 2);
    assert_eq!(game.state.player_one_score, 2);
    assert_eq!(game.stats.turns.len(), 4);
    let numbers: Vec<u32> = game.stats.turns.iter().map(|t| t.turn_number).collect();
    assert_eq!(numbers, vec![1, 2, 3, 4]);
    assert_eq!(game.state.round_history[1].winner, Some(0));
    let result = game.finish("alpha", "beta", 20);
    assert_eq!(result.winner, Some("alpha (Player 1)".to_string()));
}

#[test]
fn rock_paper_scissors_failures_and_ties() {
    let mut game = RockPaperScissors::new(RockPaperScissorsConfig { rounds: 3 });
    game.start_round();
    let err = game.play_round("alpha", "beta", Err(AgentError::InvalidResponse("junk".to_string())), None, 1).unwrap_err();
    assert_eq!(err, "Player 1 error: invalid response: junk");
    assert_eq!(game.stats.turns.len(), 0);
    assert_eq!(game.state.round_history.len(), 1);
    assert_eq!(game.state.round_history[0].winner, None);

    game.start_round();
    game.play_round("alpha", "beta", hand("lizard"), Some(hand("paper")), 1).unwrap();
    assert_eq!(game.state.round_history[1].winner, None);
    assert_eq!(game.stats.invalid_moves, 1);
    assert_eq!(game.stats.turns[0].error_message, Some("Invalid choice".to_string()));
    assert_eq!(game.stats.turns[0].turn_number, 3);

    game.start_round();
    game.play_round("alpha", "beta", hand("paper"), Some(answer(r#"{"choice": 5}"#)), 1).unwrap();
    assert_eq!(game.stats.turns[3].error_message, Some("Player 2: Missing or invalid 'choice' field".to_string()));
    assert!(game.is_finished());
    assert!(!game.state.game_over);
    let result = game.finish("alpha", "beta", 3);
    assert!(result.stats.draw);
    assert_eq!(result.winner, None);
    assert_eq!(result.stats.invalid_moves, 2);
}

#[test]
fn rock_paper_scissors_second_agent_failure() {
    let mut game = RockPaperScissors::new(RockPaperScissorsConfig { rounds: 1 });
    game.start_round();
    let err = game.play_round("alpha", "beta", hand("rock"), Some(Err(AgentError::InvalidRequest("bad".to_string()))), 1).unwrap_err();
    assert_eq!(err, "Player 2 error: invalid request: bad");
    assert_eq!(game.stats.turns.len(), 0);
    assert!(game.is_finished());
}

#[test]
fn rock_paper_scissors_higher_score_wins_after_all_rounds() {
    let mut game = RockPaperScissors::new(RockPaperScissorsConfig { rounds: 4 });
    let plays = [("paper", "paper"), ("scissors", "rock"), ("rock", "rock"), ("rock", "rock")];
    for (a, b) in plays.iter() {
        game.start_round();
        game.play_round("alpha", "beta", hand(a), Some(hand(b)), 1).unwrap();
    }
    assert!(game.is_finished());
    assert!(!game.state.game_over);
    let result = game.finish("alpha", "beta", 3);
    assert_eq!(result.winner, Some("beta (Player 2)".to_string()));
    assert!(!result.stats.draw);
}

#[test]
fn failed_session_carries_error() {
    let game = TicTacToe::new(TicTacToeConfig::default());
    let result = game.fail("Expected 2 agents, got 1".to_string());
    assert_eq!(result.winner, None);
    assert_eq!(result.error, Some("Expected 2 agents, got 1".to_string()));
}
