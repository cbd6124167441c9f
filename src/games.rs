//! The game state machines, their shared pieces and the dispatcher.

pub mod connect_four;
pub mod game;
pub mod grid;
pub mod messages;
pub mod rock_paper_scissors;
pub mod stats;
pub mod tic_tac_toe;

pub use game::{
    ConnectFourConfig, ConnectFourResult, Game, PlayerOrder, RockPaperScissorsConfig, RockPaperScissorsResult,
    TestResult, TicTacToeConfig, TicTacToeResult,
};
