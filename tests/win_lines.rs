use ai_arena::games::connect_four::{ConnectFour, ConnectFourConfig, Player as Colour};
use ai_arena::games::tic_tac_toe::{Player, TicTacToe, TicTacToeConfig};

/// A small deterministic generator of pseudo-random numbers.
struct Lcg(u64);

impl Lcg {
    fn next(&mut self) -> u64 {
        self.0 = self.0.wrapping_mul(6364136223846793005).wrapping_add(1442695040888963407);
        self.0 >> 33
    }
}

/// Whether `held` has `len` cells in a straight line, found by trying every
/// start and direction.
fn naive_line(held: &[Vec<bool>], rows: usize, cols: usize, len: usize) -> bool {
    let dirs: [(i64, i64); 4] = [(0, 1), (1, 0), (1, 1), (1, -1)];
    for r in 0..rows as i64 {
        for c in 0..cols as i64 {
            for (dr, dc) in dirs.iter() {
                let all = (0..len as i64).all(|i| {
                    let (rr, cc) = (r + i * dr, c + i * dc);
                    rr >= 0 && cc >= 0 && (rr as usize) < rows && (cc as usize) < cols && held[rr as usize][cc as usize]
                });
                if all {
                    return true;
                }
            }
        }
    }
    false
}

#[test]
fn tic_tac_toe_win_detection_matches_exhaustive_search() {
    let mut rng = Lcg(7);
    for trial in 0..400 {
        let n = 1 + (trial % 6) as u32;
        let w = 1 + (rng.next() % n as u64) as u32;
        let mut game = TicTacToe::new(TicTacToeConfig { board_size: n, win_length: w });
        let mut held = vec![vec![false; n as usize]; n as usize];
        for r in 0..n as usize {
            for c in 0..n as usize {
                game.state.board[r][c] = match rng.next() % 3 {
                    0 => None,
                    1 => Some(Player::X),
                    _ => Some(Player::O),
                };
                held[r][c] = game.state.board[r][c] == Some(Player::X);
            }
        }
        game.state.current_player = Player::X;
        assert_eq!(game.check_win(), naive_line(&held, n as usize, n as usize, w as usize), "trial {}", trial);
    }
}

#[test]
fn connect_four_win_detection_matches_exhaustive_search() {
    let mut rng = Lcg(11);
    for trial in 0..400 {
        let rows = 1 + (rng.next() % 7) as u32;
        let cols = 1 + (rng.next() % 8) as u32;
        let w = 1 + (rng.next() % 5) as u32;
        let mut game = ConnectFour::new(ConnectFourConfig { rows, cols, win_length: w });
        let mut held = vec![vec![false; cols as usize]; rows as usize];
        for r in 0..rows as usize {
            for c in 0..cols as usize {
                game.state.board[r][c] = match rng.next() % 4 {
                    0 => None,
                    1 => Some(Colour::Red),
                    _ => Some(Colour::Yellow),
                };
                held[r][c] = game.state.board[r][c] == Some(Colour::Yellow);
            }
        }
        game.state.current_player = Colour::Yellow;
        assert_eq!(
            game.check_win(),
            naive_line(&held, rows as usize, cols as usize, w as usize),
            "trial {}",
            trial
        );
    }
}
