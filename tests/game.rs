use ai_arena::games::game::check_agent_count;
use ai_arena::games::{ConnectFourConfig, Game, PlayerOrder, RockPaperScissorsConfig, TicTacToeConfig};

#[test]
fn test_game_from_string() {
    assert!(matches!(Game::from("TicTacToe"), Game::TicTacToe(_)));
    assert!(matches!(Game::from("RockPaperScissors"), Game::RockPaperScissors(_)));
    assert!(matches!(Game::from("ConnectFour"), Game::ConnectFour(_)));
}

#[test]
fn test_game_new() {
    assert!(matches!(Game::new("TicTacToe"), Some(Game::TicTacToe(_))));
    assert!(matches!(Game::new("RockPaperScissors"), Some(Game::RockPaperScissors(_))));
    assert!(matches!(Game::new("ConnectFour"), Some(Game::ConnectFour(_))));
    assert_eq!(Game::new("InvalidGame"), None);
}

#[test]
fn test_game_name() {
    assert_eq!(Game::from("TicTacToe").name(), "TicTacToe");
    assert_eq!(Game::from("RockPaperScissors").name(), "RockPaperScissors");
    assert_eq!(Game::from("ConnectFour").name(), "ConnectFour");
}

#[test]
fn test_tic_tac_toe_config_default() {
    let config = TicTacToeConfig::default();
    assert_eq!(config.board_size, 3);
    assert_eq!(config.win_length, 3);
}

#[test]
fn test_rock_paper_scissors_config_default() {
    let config = RockPaperScissorsConfig::default();
    assert_eq!(config.rounds, 3);
}

#[test]
fn test_connect_four_config_default() {
    let config = ConnectFourConfig::default();
    assert_eq!(config.rows, 6);
    assert_eq!(config.cols, 7);
    assert_eq!(config.win_length, 4);
}

#[test]
fn test_player_order_default() {
    let order = PlayerOrder::default();
    assert!(matches!(order, PlayerOrder::OrderInList));
}

#[test]
fn game_names_are_exact() {
    assert_eq!(Game::new("tictactoe"), None);
    assert_eq!(Game::new(""), None);
    assert_eq!(
        Game::new("ConnectFour"),
        Some(Game::ConnectFour(ConnectFourConfig { rows: 6, cols: 7, win_length: 4, order: PlayerOrder::OrderInList }))
    );
}

#[test]
fn agent_count_must_be_two() {
    assert_eq!(check_agent_count(2), Ok(()));
    assert_eq!(check_agent_count(3), Err("Expected 2 agents, got 3".to_string()));
    assert_eq!(check_agent_count(0), Err("Expected 2 agents, got 0".to_string()));
}

#[test]
fn configs_hand_over_their_settings() {
    let c = ConnectFourConfig { rows: 8, cols: 9, win_length: 5, order: PlayerOrder::Random }.game_config();
    assert_eq!((c.rows, c.cols, c.win_length), (8, 9, 5));
    let t = TicTacToeConfig { board_size: 4, win_length: 3, order: PlayerOrder::Ascending }.game_config();
    assert_eq!((t.board_size, t.win_length), (4, 3));
    let r = RockPaperScissorsConfig { rounds: 7, order: PlayerOrder::Decending }.game_config();
    assert_eq!(r.rounds, 7);
}
