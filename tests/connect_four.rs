use ai_arena::games::connect_four::{ConnectFour, ConnectFourConfig, Player};

#[test]
fn connect_four_test_player_as_str() {
    assert_eq!(Player::Red.as_str(), "Red");
    assert_eq!(Player::Yellow.as_str(), "Yellow");
}

#[test]
fn connect_four_test_player_to_string() {
    assert_eq!(Player::Red.to_string(), "Red");
    assert_eq!(Player::Yellow.to_string(), "Yellow");
}

#[test]
fn connect_four_test_player_other() {
    assert_eq!(Player::Red.other(), Player::Yellow);
    assert_eq!(Player::Yellow.other(), Player::Red);
}

#[test]
fn test_connect_four_new() {
    let game = ConnectFour::new(ConnectFourConfig::default());

    assert_eq!(game.state.board.len(), 6);
    assert_eq!(game.state.board[0].len(), 7);
    assert_eq!(game.state.current_player, Player::Red);
    assert_eq!(game.state.turn_number, 0);
    assert_eq!(game.state.game_over, false);
    assert_eq!(game.state.winner, None);
}

#[test]
fn test_connect_four_new_custom_size() {
    let config = ConnectFourConfig { rows: 8, cols: 10, win_length: 5 };
    let game = ConnectFour::new(config);

    assert_eq!(game.state.board.len(), 8);
    assert_eq!(game.state.board[0].len(), 10);
}

#[test]
fn test_is_valid_move_empty_column() {
    let game = ConnectFour::new(ConnectFourConfig::default());

    assert!(game.is_valid_move(0));
    assert!(game.is_valid_move(3));
    assert!(game.is_valid_move(6));
}

#[test]
fn connect_four_test_is_valid_move_out_of_bounds() {
    let game = ConnectFour::new(ConnectFourConfig::default());

    assert!(!game.is_valid_move(7));
    assert!(!game.is_valid_move(10));
}

#[test]
fn test_is_valid_move_full_column() {
    let mut game = ConnectFour::new(ConnectFourConfig::default());
    for row in 0..6 {
        game.state.board[row][3] = Some(Player::Red);
    }

    assert!(!game.is_valid_move(3));
    assert!(game.is_valid_move(0));
}

#[test]
fn test_drop_piece() {
    let mut game = ConnectFour::new(ConnectFourConfig::default());

    game.drop_piece(2, Player::Red);
    assert_eq!(game.state.board[5][2], Some(Player::Red));

    game.drop_piece(2, Player::Yellow);
    assert_eq!(game.state.board[4][2], Some(Player::Yellow));

    game.drop_piece(2, Player::Red);
    assert_eq!(game.state.board[3][2], Some(Player::Red));
}

#[test]
fn connect_four_test_check_win_horizontal() {
    let mut game = ConnectFour::new(ConnectFourConfig::default());
    game.state.board[5][0] = Some(Player::Red);
    game.state.board[5][1] = Some(Player::Red);
    game.state.board[5][2] = Some(Player::Red);
    game.state.board[5][3] = Some(Player::Red);
    game.state.current_player = Player::Red;

    assert!(game.check_win());
}

#[test]
fn connect_four_test_check_win_vertical() {
    let mut game = ConnectFour::new(ConnectFourConfig::default());
    game.state.board[2][3] = Some(Player::Yellow);
    game.state.board[3][3] = Some(Player::Yellow);
    game.state.board[4][3] = Some(Player::Yellow);
    game.state.board[5][3] = Some(Player::Yellow);
    game.state.current_player = Player::Yellow;

    assert!(game.check_win());
}

#[test]
fn connect_four_test_check_win_diagonal_tl_br() {
    let mut game = ConnectFour::new(ConnectFourConfig::default());
    game.state.board[2][0] = Some(Player::Red);
    game.state.board[3][1] = Some(Player::Red);
    game.state.board[4][2] = Some(Player::Red);
    game.state.board[5][3] = Some(Player::Red);
    game.state.current_player = Player::Red;

    assert!(game.check_win());
}

#[test]
fn connect_four_test_check_win_diagonal_tr_bl() {
    let mut game = ConnectFour::new(ConnectFourConfig::default());
    game.state.board[2][3] = Some(Player::Yellow);
    game.state.board[3][2] = Some(Player::Yellow);
    game.state.board[4][1] = Some(Player::Yellow);
    game.state.board[5][0] = Some(Player::Yellow);
    game.state.current_player = Player::Yellow;

    assert!(game.check_win());
}

#[test]
fn connect_four_test_check_win_no_win() {
    let mut game = ConnectFour::new(ConnectFourConfig::default());
    game.state.board[5][0] = Some(Player::Red);
    game.state.board[5][1] = Some(Player::Yellow);
    game.state.board[4][0] = Some(Player::Red);
    game.state.current_player = Player::Red;

    assert!(!game.check_win());
}

#[test]
fn connect_four_test_check_win_custom_win_length() {
    let config = ConnectFourConfig { rows: 6, cols: 7, win_length: 5 };
    let mut game = ConnectFour::new(config);
    game.state.board[5][0] = Some(Player::Red);
    game.state.board[5][1] = Some(Player::Red);
    game.state.board[5][2] = Some(Player::Red);
    game.state.board[5][3] = Some(Player::Red);
    game.state.board[5][4] = Some(Player::Red);
    game.state.current_player = Player::Red;

    assert!(game.check_win());
}

#[test]
fn connect_four_test_config_default() {
    let config = ConnectFourConfig::default();
    assert_eq!(config.rows, 6);
    assert_eq!(config.cols, 7);
    assert_eq!(config.win_length, 4);
}

#[test]
fn drop_piece_into_full_column_changes_nothing() {
    let mut game = ConnectFour::new(ConnectFourConfig { rows: 2, cols: 2, win_length: 2 });
    game.drop_piece(1, Player::Red);
    game.drop_piece(1, Player::Yellow);
    assert_eq!(game.state.board[1][1], Some(Player::Red));
    assert_eq!(game.state.board[0][1], Some(Player::Yellow));
    game.drop_piece(1, Player::Red);
    assert_eq!(game.state.board[1][1], Some(Player::Red));
    assert_eq!(game.state.board[0][1], Some(Player::Yellow));
    assert_eq!(game.state.board[0][0], None);
    assert_eq!(game.state.board[1][0], None);
}

#[test]
fn drop_piece_lands_in_lowest_free_row() {
    let mut game = ConnectFour::new(ConnectFourConfig::default());
    game.state.board[5][4] = Some(Player::Yellow);
    game.state.board[3][4] = Some(Player::Yellow);
    game.drop_piece(4, Player::Red);
    assert_eq!(game.state.board[4][4], Some(Player::Red));
    assert_eq!(game.state.board[2][4], None);
}

#[test]
fn game_id_has_connect_four_prefix() {
    let game = ConnectFour::new(ConnectFourConfig::default());
    assert!(game.game_id.starts_with("c4_"));
    assert_eq!(game.game_id.len(), 11);
}
