//! The dispatcher: which game to play, with which settings, and the uniform
//! result of a session.

use vstd::prelude::*;
use crate::games::connect_four::{ConnectFourConfig as GameConnectFourConfig, ConnectFourResult as GameConnectFourResult};
use crate::games::rock_paper_scissors::{
    RockPaperScissorsConfig as GameRockPaperScissorsConfig,
    RockPaperScissorsResult as GameRockPaperScissorsResult,
};
use crate::games::stats::GameStats;
use crate::games::tic_tac_toe::{TicTacToeConfig as GameTicTacToeConfig, TicTacToeResult as GameTicTacToeResult};
use crate::text::same_text;

verus! {

/// A game and its settings.
#[derive(Clone, Copy, Debug, PartialEq, Eq, Structural)]
pub enum Game {
    TicTacToe(TicTacToeConfig),
    RockPaperScissors(RockPaperScissorsConfig),
    ConnectFour(ConnectFourConfig),
}

/// How agents are seated.
#[derive(Clone, Copy, Debug, PartialEq, Eq, Structural)]
pub enum PlayerOrder {
    Random,
    Decending,
    Ascending,
    OrderInList,
    ReverseOrderInList,
}

impl Default for PlayerOrder {
    fn default() -> (r: Self)
        ensures
            r == PlayerOrder::OrderInList,
    {
        PlayerOrder::OrderInList
    }
}

/// Tic-tac-toe settings.
#[derive(Clone, Copy, Debug, PartialEq, Eq, Structural)]
pub struct TicTacToeConfig {
    pub board_size: u32,
    pub win_length: u32,
    pub order: PlayerOrder,
}

impl Default for TicTacToeConfig {
    fn default() -> (r: Self)
        ensures
            r == (TicTacToeConfig { board_size: 3, win_length: 3, order: PlayerOrder::OrderInList }),
    {
        TicTacToeConfig { board_size: 3, win_length: 3, order: PlayerOrder::default() }
    }
}

/// Rock-paper-scissors settings.
#[derive(Clone, Copy, Debug, PartialEq, Eq, Structural)]
pub struct RockPaperScissorsConfig {
    pub rounds: u32,
    pub order: PlayerOrder,
}

impl Default for RockPaperScissorsConfig {
    fn default() -> (r: Self)
        ensures
            r == (RockPaperScissorsConfig { rounds: 3, order: PlayerOrder::OrderInList }),
    {
        RockPaperScissorsConfig { rounds: 3, order: PlayerOrder::default() }
    }
}

/// Connect-four settings.
#[derive(Clone, Copy, Debug, PartialEq, Eq, Structural)]
pub struct ConnectFourConfig {
    pub rows: u32,
    pub cols: u32,
    pub win_length: u32,
    pub order: PlayerOrder,
}

impl Default for ConnectFourConfig {
    fn default() -> (r: Self)
        ensures
            r == (ConnectFourConfig { rows: 6, cols: 7, win_length: 4, order: PlayerOrder::OrderInList }),
    {
        ConnectFourConfig { rows: 6, cols: 7, win_length: 4, order: PlayerOrder::default() }
    }
}

/// The result of a session, by game.
#[derive(Debug)]
pub enum TestResult {
    TicTacToe(TicTacToeResult),
    RockPaperScissors(RockPaperScissorsResult),
    ConnectFour(ConnectFourResult),
}

/// The result of a tic-tac-toe session.
#[derive(Debug)]
pub struct TicTacToeResult {
    pub winner: Option<String>,
    pub stats: GameStats,
    pub error: Option<String>,
}

/// The result of a rock-paper-scissors match.
#[derive(Debug)]
pub struct RockPaperScissorsResult {
    pub winner: Option<String>,
    pub stats: GameStats,
    pub error: Option<String>,
}

/// The result of a connect-four session.
#[derive(Debug)]
pub struct ConnectFourResult {
    pub winner: Option<String>,
    pub stats: GameStats,
    pub error: Option<String>,
}

/// The name of a game with its default settings, if the name is known.
pub open spec fn game_named(name: Seq<char>) -> Option<Game> {
    if name == "TicTacToe"@ {
        Some(Game::TicTacToe(TicTacToeConfig { board_size: 3, win_length: 3, order: PlayerOrder::OrderInList }))
    } else if name == "RockPaperScissors"@ {
        Some(Game::RockPaperScissors(RockPaperScissorsConfig { rounds: 3, order: PlayerOrder::OrderInList }))
    } else if name == "ConnectFour"@ {
        Some(Game::ConnectFour(ConnectFourConfig { rows: 6, cols: 7, win_length: 4, order: PlayerOrder::OrderInList }))
    } else {
        None
    }
}

impl Game {
    /// The name of the game.
    pub open spec fn title(&self) -> Seq<char> {
        match self {
            Game::TicTacToe(_) => "TicTacToe"@,
            Game::RockPaperScissors(_) => "RockPaperScissors"@,
            Game::ConnectFour(_) => "ConnectFour"@,
        }
    }

    /// The game of that name with its default settings; none for an
    /// unknown name.
    pub fn new(name: &str) -> (r: Option<Self>)
        ensures
            r == game_named(name@),
    {
        if same_text(name, "TicTacToe") {
            Some(Game::TicTacToe(TicTacToeConfig::default()))
        } else if same_text(name, "RockPaperScissors") {
            Some(Game::RockPaperScissors(RockPaperScissorsConfig::default()))
        } else if same_text(name, "ConnectFour") {
            Some(Game::ConnectFour(ConnectFourConfig::default()))
        } else {
            None
        }
    }

    /// The game of a name that must be known, with its default settings.
    pub fn from(name: &str) -> (r: Self)
        requires
            game_named(name@) is Some,
        ensures
            Some(r) == game_named(name@),
    {
        match Game::new(name) {
            Some(g) => g,
            None => Game::TicTacToe(TicTacToeConfig::default()),
        }
    }

    pub fn name(&self) -> (r: &'static str)
        ensures
            r@ == self.title(),
            game_named(r@) matches Some(g) && g.title() == self.title(),
    {
        proof {
            reveal_strlit("TicTacToe");
            reveal_strlit("RockPaperScissors");
            reveal_strlit("ConnectFour");
        }
        match self {
            Game::TicTacToe(_) => "TicTacToe",
            Game::RockPaperScissors(_) => "RockPaperScissors",
            Game::ConnectFour(_) => "ConnectFour",
        }
    }
}

impl TicTacToeConfig {
    /// The settings the tic-tac-toe state machine plays with.
    pub fn game_config(&self) -> (r: GameTicTacToeConfig)
        ensures
            r.board_size == self.board_size,
            r.win_length == self.win_length,
    {
        GameTicTacToeConfig { board_size: self.board_size, win_length: self.win_length }
    }
}

impl RockPaperScissorsConfig {
    /// The settings the rock-paper-scissors state machine plays with.
    pub fn game_config(&self) -> (r: GameRockPaperScissorsConfig)
        ensures
            r.rounds == self.rounds,
    {
        GameRockPaperScissorsConfig { rounds: self.rounds }
    }
}

impl ConnectFourConfig {
    /// The settings the connect-four state machine plays with.
    pub fn game_config(&self) -> (r: GameConnectFourConfig)
        ensures
            r.rows == self.rows,
            r.cols == self.cols,
            r.win_length == self.win_length,
    {
        GameConnectFourConfig { rows: self.rows, cols: self.cols, win_length: self.win_length }
    }
}

impl TestResult {
    /// Wraps the result of a tic-tac-toe session.
    pub fn from_tic_tac_toe(r: GameTicTacToeResult) -> (t: Self)
        ensures
            t == TestResult::TicTacToe(TicTacToeResult { winner: r.winner, stats: r.stats, error: r.error }),
    {
        TestResult::TicTacToe(TicTacToeResult { winner: r.winner, stats: r.stats, error: r.error })
    }

    /// Wraps the result of a rock-paper-scissors match.
    pub fn from_rock_paper_scissors(r: GameRockPaperScissorsResult) -> (t: Self)
        ensures
            t == TestResult::RockPaperScissors(
                RockPaperScissorsResult { winner: r.winner, stats: r.stats, error: r.error },
            ),
    {
        TestResult::RockPaperScissors(RockPaperScissorsResult { winner: r.winner, stats: r.stats, error: r.error })
    }

    /// Wraps the result of a connect-four session.
    pub fn from_connect_four(r: GameConnectFourResult) -> (t: Self)
        ensures
            t == TestResult::ConnectFour(ConnectFourResult { winner: r.winner, stats: r.stats, error: r.error }),
    {
        TestResult::ConnectFour(ConnectFourResult { winner: r.winner, stats: r.stats, error: r.error })
    }
}

/// A session is played by exactly two agents.
pub open spec fn agent_count_message(count: nat) -> Seq<char> {
    "Expected 2 agents, got "@ + crate::text::decimal(count)
}

/// Checks that a session has exactly two agents.
pub fn check_agent_count(count: usize) -> (r: Result<(), String>)
    ensures
        r is Ok <==> count == 2,
        r matches Err(m) ==> m@ == agent_count_message(count as nat),
{
    if count == 2 {
        Ok(())
    } else {
        Err(String::from_str("Expected 2 agents, got ").concat(crate::text::decimal_text(count as u64).as_str()))
    }
}

} // verus!
