//! Tic-tac-toe on a square board: the state machine of one session.

use vstd::prelude::*;
use crate::agent::{
    null_document, read_u64_field, u64_field, AgentError, MoveRequest, MoveResponse, MoveSchema,
};
use crate::games::grid::{cell_count, copy_rows, find_line, has_line, line_from, mask_matches};
use crate::games::stats::{GameSnapshot, GameStats, TurnStats};
use crate::session_id::new_game_id;
use crate::games::messages::{
    agent_error_message, agent_error_text, missing_field_message, missing_field_text, winner_name, winner_text,
};
use crate::text::{decimal, decimal_text};

verus! {

/// Board size and the length of a winning line.
#[derive(Clone, Copy, Debug, PartialEq, Eq, Structural)]
pub struct TicTacToeConfig {
    pub board_size: u32,
    pub win_length: u32,
}

impl Default for TicTacToeConfig {
    fn default() -> (r: Self)
        ensures
            r.board_size == 3,
            r.win_length == 3,
    {
        TicTacToeConfig { board_size: 3, win_length: 3 }
    }
}

/// The two marks.
#[derive(Clone, Copy, Debug, PartialEq, Eq, Structural)]
pub enum Player {
    X,
    O,
}

impl Player {
    /// The name of the mark.
    pub open spec fn label(self) -> Seq<char> {
        match self {
            Player::X => "X"@,
            Player::O => "O"@,
        }
    }

    /// The other mark.
    pub open spec fn opponent(self) -> Player {
        match self {
            Player::X => Player::O,
            Player::O => Player::X,
        }
    }

    pub fn as_str(&self) -> (r: &'static str)
        ensures
            r@ == self.label(),
    {
        match self {
            Player::X => "X",
            Player::O => "O",
        }
    }

    pub fn to_string(&self) -> (r: String)
        ensures
            r@ == self.label(),
    {
        String::from_str(self.as_str())
    }

    pub fn other(&self) -> (r: Player)
        ensures
            r == self.opponent(),
    {
        match self {
            Player::X => Player::O,
            Player::O => Player::X,
        }
    }
}

/// The board (rows of cells) and the progress of the game.
#[derive(Clone, Debug)]
pub struct TicTacToeState {
    pub board: Vec<Vec<Option<Player>>>,
    pub current_player: Player,
    pub turn_number: u32,
    pub game_over: bool,
    pub winner: Option<Player>,
}

/// A move: the cell at `row`, `col`.
#[derive(Clone, Copy, Debug, PartialEq, Eq, Structural)]
pub struct TicTacToeMove {
    pub row: u32,
    pub col: u32,
}

/// The cells of a board, row by row.
pub open spec fn cells(board: Seq<Vec<Option<Player>>>) -> Seq<Seq<Option<Player>>> {
    board.map_values(|row: Vec<Option<Player>>| row@)
}

/// `n` rows of `n` cells.
pub open spec fn square(b: Seq<Seq<Option<Player>>>, n: int) -> bool {
    &&& b.len() == n
    &&& forall|r: int| 0 <= r < n ==> #[trigger] b[r].len() == n
}

/// The cells that hold `p`'s mark.
pub open spec fn marks(b: Seq<Seq<Option<Player>>>, p: Player) -> spec_fn(int, int) -> bool {
    |r: int, c: int| b[r][c] == Some(p)
}

/// The board with `p`'s mark put in cell `(r, c)`.
pub open spec fn place(b: Seq<Seq<Option<Player>>>, r: int, c: int, p: Player) -> Seq<Seq<Option<Player>>> {
    b.update(r, b[r].update(c, Some(p)))
}

/// `after` is `before` with one more mark: one empty cell became occupied and
/// no other cell changed.
pub open spec fn adds_one_mark(before: Seq<Seq<Option<Player>>>, after: Seq<Seq<Option<Player>>>) -> bool {
    &&& after.len() == before.len()
    &&& forall|r: int| 0 <= r < before.len() ==> #[trigger] after[r].len() == before[r].len()
    &&& exists|r: int, c: int|
        {
            &&& 0 <= r < before.len() && 0 <= c < before[r].len()
            &&& before[r][c] is None
            &&& after[r][c] is Some
            &&& forall|r2: int, c2: int|
                0 <= r2 < before.len() && 0 <= c2 < before[r2].len() && (r2 != r || c2 != c)
                    ==> #[trigger] after[r2][c2] == before[r2][c2]
        }
}

/// Putting a mark into an empty cell adds exactly that mark.
pub proof fn lemma_place_adds_one_mark(b: Seq<Seq<Option<Player>>>, n: int, r: int, c: int, p: Player)
    requires
        square(b, n),
        0 <= r < n,
        0 <= c < n,
        b[r][c] is None,
    ensures
        adds_one_mark(b, place(b, r, c, p)),
        square(place(b, r, c, p), n),
{
    let a = place(b, r, c, p);
    assert forall|r2: int| 0 <= r2 < b.len() implies #[trigger] a[r2].len() == b[r2].len() by {
        if r2 == r {
            assert(a[r2] == b[r].update(c, Some(p)));
        }
    }
    assert forall|r2: int, c2: int|
        0 <= r2 < b.len() && 0 <= c2 < b[r2].len() && (r2 != r || c2 != c) implies #[trigger] a[r2][c2]
        == b[r2][c2] by {
        if r2 == r {
            assert(a[r2] == b[r].update(c, Some(p)));
        }
    }
    assert(a[r][c] is Some);
}

/// One session of tic-tac-toe: its settings, state and record.
pub struct TicTacToe {
    pub config: TicTacToeConfig,
    pub state: TicTacToeState,
    pub stats: GameStats,
    pub game_id: String,
}

/// The outcome of a session.
#[derive(Debug)]
pub struct TicTacToeResult {
    pub winner: Option<String>,
    pub stats: GameStats,
    pub error: Option<String>,
}

/// The message of a refused cell.
pub open spec fn invalid_cell_message(row: nat, col: nat) -> Seq<char> {
    "Invalid move: row="@ + decimal(row) + ", col="@ + decimal(col)
}

impl TicTacToe {
    /// The cells of the board.
    pub open spec fn board(&self) -> Seq<Seq<Option<Player>>> {
        cells(self.state.board@)
    }

    /// The turn budget: one turn per cell.
    pub open spec fn max_turns(&self) -> int {
        self.config.board_size * self.config.board_size
    }

    /// `p` holds a line of `win_length` marks.
    pub open spec fn wins(&self, p: Player) -> bool {
        has_line(
            marks(self.board(), p),
            self.config.board_size as int,
            self.config.board_size as int,
            self.config.win_length as int,
        )
    }

    /// `(row, col)` is a cell of the board and it is empty.
    pub open spec fn accepts(&self, row: int, col: int) -> bool {
        &&& 0 <= row < self.config.board_size
        &&& 0 <= col < self.config.board_size
        &&& self.board()[row][col] is None
    }

    /// The session is over: won, drawn, or out of turns.
    pub open spec fn finished(&self) -> bool {
        self.state.game_over || self.state.turn_number >= self.max_turns()
    }

    /// A turn has been started and not yet recorded.
    pub open spec fn turn_open(&self) -> bool {
        self.stats.turns@.len() < self.state.turn_number
    }

    /// The board is square, turn numbers fit, and the record is consistent.
    pub open spec fn wf(&self) -> bool {
        &&& self.max_turns() <= u32::MAX
        &&& square(self.board(), self.config.board_size as int)
        &&& self.stats.wf()
        &&& self.stats.turns@.len() <= self.state.turn_number
        &&& self.state.turn_number <= self.max_turns()
    }

    /// `snap` is a copy of this game with the board `board`.
    pub open spec fn pictured(&self, snap: GameSnapshot, board: Seq<Seq<Option<Player>>>) -> bool {
        match snap {
            GameSnapshot::TicTacToe { state, config } => {
                &&& cells(state.board@) == board
                &&& state.current_player == self.state.current_player
                &&& state.turn_number == self.state.turn_number
                &&& state.game_over == self.state.game_over
                &&& state.winner == self.state.winner
                &&& config == self.config
            },
            _ => false,
        }
    }

    /// A new game on an empty board, X to move.
    pub fn new(config: TicTacToeConfig) -> (r: Self)
        requires
            config.board_size * config.board_size <= u32::MAX,
        ensures
            r.wf(),
            r.config == config,
            forall|i: int, j: int|
                0 <= i < config.board_size && 0 <= j < config.board_size ==> (#[trigger] r.board()[i][j])
                    is None,
            r.state.current_player == Player::X,
            r.state.turn_number == 0,
            !r.state.game_over,
            r.state.winner is None,
            r.stats.turns@.len() == 0,
            r.stats.winner is None,
            !r.stats.draw,
            r.game_id@.subrange(0, 4) == "ttt_"@,
            r.game_id@.len() == 12,
    {
        let n = config.board_size as usize;
        let mut board: Vec<Vec<Option<Player>>> = Vec::new();
        let mut i: usize = 0;
        while i < n
            invariant
                n == config.board_size,
                i <= n,
                board@.len() == i,
                forall|k: int| 0 <= k < i ==> (#[trigger] board@[k])@.len() == n,
                forall|k: int, j: int| 0 <= k < i && 0 <= j < n ==> (#[trigger] board@[k]@[j]) is None,
            decreases n - i,
        {
            let mut row: Vec<Option<Player>> = Vec::new();
            let mut j: usize = 0;
            while j < n
                invariant
                    j <= n,
                    row@.len() == j,
                    forall|k: int| 0 <= k < j ==> #[trigger] row@[k] is None,
                decreases n - j,
            {
                row.push(None);
                j = j + 1;
            }
            board.push(row);
            i = i + 1;
        }
        proof {
            reveal_strlit("ttt_");
        }
        let game_id = new_game_id("ttt_");
        let r = TicTacToe {
            config,
            state: TicTacToeState {
                board,
                current_player: Player::X,
                turn_number: 0,
                game_over: false,
                winner: None,
            },
            stats: GameStats::new(),
            game_id,
        };
        assert(square(r.board(), n as int));
        r
    }

    /// Whether `(row, col)` is on the board and empty.
    pub fn is_valid_move(&self, row: u32, col: u32) -> (r: bool)
        requires
            square(self.board(), self.config.board_size as int),
        ensures
            r == self.accepts(row as int, col as int),
    {
        if row >= self.config.board_size || col >= self.config.board_size {
            return false;
        }
        assert(self.board()[row as int] == self.state.board@[row as int]@);
        self.state.board[row as usize][col as usize].is_none()
    }

    /// Whether the player to move holds a line of `win_length` marks in a
    /// row, a column or a diagonal.
    pub fn check_win(&self) -> (r: bool)
        requires
            square(self.board(), self.config.board_size as int),
        ensures
            r == self.wins(self.state.current_player),
    {
        let n = self.config.board_size as usize;
        let len = self.config.win_length as usize;
        let p = self.state.current_player;
        let ghost cell = marks(self.board(), p);
        if len == 0 {
            assert(line_from(cell, n as int, n as int, 0, 0, 0));
            return true;
        }
        let mask = mark_mask(&self.state.board, n, p);
        find_line(&mask, n, n, len, Ghost(cell))
    }

    /// A copy of the game as it stands.
    pub fn snapshot(&self) -> (s: GameSnapshot)
        ensures
            self.pictured(s, self.board()),
    {
        let board = copy_rows(&self.state.board);
        assert(cells(board@) =~= self.board());
        GameSnapshot::TicTacToe {
            state: TicTacToeState {
                board,
                current_player: self.state.current_player,
                turn_number: self.state.turn_number,
                game_over: self.state.game_over,
                winner: self.state.winner,
            },
            config: self.config,
        }
    }
}

/// Which cells of a square board of side `n` hold `p`'s mark.
fn mark_mask(board: &Vec<Vec<Option<Player>>>, n: usize, p: Player) -> (m: Vec<Vec<bool>>)
    requires
        square(cells(board@), n as int),
    ensures
        mask_matches(m@, marks(cells(board@), p), n as int, n as int),
{
    let ghost b = cells(board@);
    let mut m: Vec<Vec<bool>> = Vec::new();
    let mut i: usize = 0;
    while i < n
        invariant
            b == cells(board@),
            square(b, n as int),
            i <= n,
            m@.len() == i,
            forall|k: int| 0 <= k < i ==> (#[trigger] m@[k])@.len() == n,
            forall|k: int, j: int| 0 <= k < i && 0 <= j < n ==> #[trigger] m@[k]@[j] == (b[k][j] == Some(p)),
        decreases n - i,
    {
        let mut row: Vec<bool> = Vec::new();
        let mut j: usize = 0;
        assert(b[i as int] == board@[i as int]@);
        while j < n
            invariant
                b == cells(board@),
                square(b, n as int),
                i < n,
                j <= n,
                row@.len() == j,
                forall|k: int| 0 <= k < j ==> #[trigger] row@[k] == (b[i as int][k] == Some(p)),
            decreases n - j,
        {
            assert(b[i as int] == board@[i as int]@);
            let held = match board[i][j] {
                Some(q) => q == p,
                None => false,
            };
            row.push(held);
            j = j + 1;
        }
        m.push(row);
        i = i + 1;
    }
    m
}

/// The board of a tic-tac-toe snapshot.
pub open spec fn snapshot_cells(snap: GameSnapshot) -> Seq<Seq<Option<Player>>> {
    match snap {
        GameSnapshot::TicTacToe { state, .. } => cells(state.board@),
        _ => Seq::empty(),
    }
}

/// `t` records `agent`'s attempt to play `(row, col)` in `g` as `g` stood.
pub open spec fn records_attempt(
    g: TicTacToe,
    t: TurnStats,
    agent: Seq<char>,
    row: int,
    col: int,
    move_made: serde_json::Value,
    diagnostics: Option<String>,
    time: u64,
) -> bool {
    let valid = g.accepts(row, col);
    &&& t.turn_number == g.state.turn_number
    &&& t.player@ == agent
    &&& t.move_made == move_made
    &&& t.time_taken_ms == time
    &&& t.move_valid == valid
    &&& t.diagnostics == diagnostics
    &&& valid ==> t.error_message is None
    &&& !valid ==> (t.error_message matches Some(m) && m@ == invalid_cell_message(row as nat, col as nat))
    &&& g.pictured(t.state_before, g.board())
    &&& g.pictured(
        t.state_after,
        if valid {
            place(g.board(), row, col, g.state.current_player)
        } else {
            g.board()
        },
    )
}

/// One move attempt takes the game from `o` to `s` and answers `r`: the
/// move is checked, applied when legal and recorded; then a win ends the
/// game, a spent turn budget draws it, and otherwise the other player moves.
/// A refused move leaves the same player to move.
pub open spec fn plays(
    o: TicTacToe,
    s: TicTacToe,
    r: Result<(), String>,
    agent: Seq<char>,
    row: int,
    col: int,
    move_made: serde_json::Value,
    diagnostics: Option<String>,
    time: u64,
) -> bool {
    let p = o.state.current_player;
    let valid = o.accepts(row, col);
    &&& s.config == o.config
    &&& s.game_id == o.game_id
    &&& s.state.turn_number == o.state.turn_number
    &&& s.board() == if valid {
        place(o.board(), row, col, p)
    } else {
        o.board()
    }
    &&& s.stats.turns@.len() == o.stats.turns@.len() + 1
    &&& s.stats.turns@.drop_last() == o.stats.turns@
    &&& records_attempt(o, s.stats.turns@.last(), agent, row, col, move_made, diagnostics, time)
    &&& s.stats.total_duration_ms == o.stats.total_duration_ms
    &&& (r is Ok <==> valid)
    &&& !valid ==> {
        &&& r matches Err(m) && m@ == invalid_cell_message(row as nat, col as nat)
        &&& s.state.current_player == p
        &&& s.state.game_over == o.state.game_over
        &&& s.state.winner == o.state.winner
        &&& s.stats.winner == o.stats.winner
        &&& s.stats.draw == o.stats.draw
    }
    &&& valid && s.wins(p) ==> {
        &&& s.state.game_over
        &&& s.state.winner == Some(p)
        &&& s.state.current_player == p
        &&& s.stats.winner matches Some(w) && w@ == winner_name(agent, p.label())
        &&& s.stats.draw == o.stats.draw
    }
    &&& valid && !s.wins(p) && o.state.turn_number >= o.max_turns() ==> {
        &&& s.state.game_over
        &&& s.stats.draw
        &&& s.state.current_player == p
        &&& s.state.winner == o.state.winner
        &&& s.stats.winner == o.stats.winner
    }
    &&& valid && !s.wins(p) && o.state.turn_number < o.max_turns() ==> {
        &&& s.state.current_player == p.opponent()
        &&& s.state.game_over == o.state.game_over
        &&& s.state.winner == o.state.winner
        &&& s.stats.winner == o.stats.winner
        &&& s.stats.draw == o.stats.draw
    }
}

/// Writes the message of a refused cell.
fn invalid_cell_text(row: u64, col: u64) -> (r: String)
    ensures
        r@ == invalid_cell_message(row as nat, col as nat),
{
    let mut m = String::from_str("Invalid move: row=");
    m.append(decimal_text(row).as_str());
    m.append(", col=");
    m.append(decimal_text(col).as_str());
    m
}

/// A legal move adds exactly one mark to the board, and a refused one
/// leaves the board as it was and counts one more refused move.
pub proof fn lemma_attempt_outcome(
    o: TicTacToe,
    s: TicTacToe,
    r: Result<(), String>,
    agent: Seq<char>,
    row: int,
    col: int,
    move_made: serde_json::Value,
    diagnostics: Option<String>,
    time: u64,
)
    requires
        o.wf(),
        s.wf(),
        plays(o, s, r, agent, row, col, move_made, diagnostics, time),
    ensures
        r is Ok ==> adds_one_mark(o.board(), s.board()) && s.stats.invalid_moves == o.stats.invalid_moves,
        r is Err ==> s.board() == o.board() && s.stats.invalid_moves == o.stats.invalid_moves + 1,
{
    assert(s.stats.turns@.drop_last() == o.stats.turns@);
    if r is Ok {
        lemma_place_adds_one_mark(o.board(), o.config.board_size as int, row, col, o.state.current_player);
    }
}

/// `t` records an attempt of `agent` in `g` that yielded nothing to play:
/// refused with `message`, the board as it stood before and after.
pub open spec fn records_failure(
    g: TicTacToe,
    t: TurnStats,
    agent: Seq<char>,
    message: Seq<char>,
    move_made: serde_json::Value,
    diagnostics: Option<String>,
    time: u64,
) -> bool {
    &&& t.turn_number == g.state.turn_number
    &&& t.player@ == agent
    &&& t.move_made == move_made
    &&& t.time_taken_ms == time
    &&& !t.move_valid
    &&& t.diagnostics == diagnostics
    &&& t.error_message matches Some(m) && m@ == message
    &&& g.pictured(t.state_before, g.board())
    &&& g.pictured(t.state_after, g.board())
}

/// An attempt that yielded nothing to play takes the game from `o` to `s`
/// and answers `r`: it is recorded as a refused move with `message`, the
/// count of refused moves grows by one, and the game itself (board, player
/// to move, whether it is over) stays as it was.
pub open spec fn fails(
    o: TicTacToe,
    s: TicTacToe,
    r: Result<(), String>,
    agent: Seq<char>,
    message: Seq<char>,
    move_made: serde_json::Value,
    diagnostics: Option<String>,
    time: u64,
) -> bool {
    &&& s.config == o.config
    &&& s.state == o.state
    &&& s.game_id == o.game_id
    &&& s.stats.turns@.len() == o.stats.turns@.len() + 1
    &&& s.stats.turns@.drop_last() == o.stats.turns@
    &&& records_failure(o, s.stats.turns@.last(), agent, message, move_made, diagnostics, time)
    &&& s.stats.invalid_moves == o.stats.invalid_moves + 1
    &&& s.stats.winner == o.stats.winner
    &&& s.stats.draw == o.stats.draw
    &&& s.stats.total_duration_ms == o.stats.total_duration_ms
    &&& r matches Err(m) && m@ == message
}

impl TicTacToe {
    /// Whether the loop of turns is over: the game ended or the turn budget
    /// is spent.
    pub fn is_finished(&self) -> (r: bool)
        ensures
            r == self.finished(),
    {
        let max = cell_count(self.config.board_size, self.config.board_size);
        self.state.game_over || self.state.turn_number as u64 >= max
    }

    /// Which agent moves now: `0` for X, `1` for O.
    pub fn current_agent_index(&self) -> (r: usize)
        ensures
            r == if self.state.current_player == Player::X { 0usize } else { 1usize },
    {
        match self.state.current_player {
            Player::X => 0,
            Player::O => 1,
        }
    }

    /// Opens the next turn: counts it and builds the request for the player
    /// to move.
    pub fn start_turn(&mut self) -> (req: MoveRequest)
        requires
            old(self).wf(),
            !old(self).finished(),
        ensures
            final(self).wf(),
            final(self).turn_open(),
            final(self).state.turn_number == old(self).state.turn_number + 1,
            final(self).state.board == old(self).state.board,
            final(self).state.current_player == old(self).state.current_player,
            final(self).state.game_over == old(self).state.game_over,
            final(self).state.winner == old(self).state.winner,
            final(self).config == old(self).config,
            final(self).stats == old(self).stats,
            final(self).game_id == old(self).game_id,
            req.turn_index == final(self).state.turn_number,
            req.game_id@ == final(self).game_id@,
            final(self).pictured(req.state, final(self).board()),
            req.expected_move_schema == (MoveSchema::Cell { max_index: (old(self).config.board_size - 1) as u32 }),
    {
        proof {
            let n = self.config.board_size as int;
            let t = self.state.turn_number as int;
            assert(n >= 1) by (nonlinear_arith)
                requires
                    t < n * n,
                    t >= 0,
                    n >= 0,
            ;
        }
        self.state.turn_number = self.state.turn_number + 1;
        let state = self.snapshot();
        MoveRequest {
            turn_index: self.state.turn_number,
            game_id: self.game_id.clone(),
            state,
            expected_move_schema: MoveSchema::Cell { max_index: self.config.board_size - 1 },
        }
    }

    /// Plays `(row, col)` for the player to move and records the attempt;
    /// then ends the game on a win or a spent turn budget, or hands the move
    /// to the other player. A refused move is recorded and answered with its
    /// message, and the same player stays to move.
    pub fn play_move(
        &mut self,
        agent_name: &str,
        row: u64,
        col: u64,
        move_made: serde_json::Value,
        diagnostics: Option<String>,
        time_taken_ms: u64,
    ) -> (r: Result<(), String>)
        requires
            old(self).wf(),
            old(self).turn_open(),
        ensures
            final(self).wf(),
            plays(*old(self), *final(self), r, agent_name@, row as int, col as int, move_made, diagnostics, time_taken_ms),
            final(self).stats.turns@.last().move_valid ==> adds_one_mark(
                snapshot_cells(final(self).stats.turns@.last().state_before),
                snapshot_cells(final(self).stats.turns@.last().state_after),
            ),
    {
        let ghost o = *self;
        let n = self.config.board_size;
        let p = self.state.current_player;
        let state_before = self.snapshot();
        let valid = row < n as u64 && col < n as u64 && self.is_valid_move(row as u32, col as u32);
        let error_message = if valid {
            None
        } else {
            Some(invalid_cell_text(row, col))
        };
        if valid {
            let r = row as usize;
            let c = col as usize;
            proof {
                lemma_place_adds_one_mark(o.board(), n as int, r as int, c as int, p);
            }
            assert(self.board()[r as int] == self.state.board@[r as int]@);
            self.state.board[r][c] = Some(p);
            assert(self.board() =~= place(o.board(), r as int, c as int, p));
        }
        let state_after = self.snapshot();
        let turn = TurnStats {
            turn_number: self.state.turn_number,
            player: String::from_str(agent_name),
            move_made,
            time_taken_ms,
            move_valid: valid,
            error_message,
            state_before,
            state_after,
            diagnostics,
        };
        let ghost recorded = turn;
        self.stats.add_turn(turn);
        assert(self.stats.turns@.drop_last() =~= o.stats.turns@);
        assert(records_attempt(o, recorded, agent_name@, row as int, col as int, move_made, diagnostics, time_taken_ms));
        if !valid {
            return Err(invalid_cell_text(row, col));
        }
        if self.check_win() {
            self.state.game_over = true;
            self.state.winner = Some(p);
            self.stats.winner = Some(winner_text(agent_name, p.as_str()));
        } else if self.state.turn_number as u64 >= cell_count(n, n) {
            self.state.game_over = true;
            self.stats.draw = true;
        } else {
            self.state.current_player = p.other();
        }
        Ok(())
    }

    /// Records the open turn as refused with `message`: the agent gave no
    /// playable move. The game itself is left as it was.
    pub fn record_failure(
        &mut self,
        agent_name: &str,
        message: String,
        move_made: serde_json::Value,
        diagnostics: Option<String>,
        time_taken_ms: u64,
    ) -> (r: Result<(), String>)
        requires
            old(self).wf(),
            old(self).turn_open(),
        ensures
            final(self).wf(),
            fails(*old(self), *final(self), r, agent_name@, message@, move_made, diagnostics, time_taken_ms),
    {
        let ghost o = *self;
        let snapshot = self.snapshot();
        let turn = TurnStats {
            turn_number: self.state.turn_number,
            player: String::from_str(agent_name),
            move_made,
            time_taken_ms,
            move_valid: false,
            error_message: Some(message.clone()),
            state_before: snapshot,
            state_after: self.snapshot(),
            diagnostics,
        };
        let ghost recorded = turn;
        self.stats.add_turn(turn);
        assert(self.stats.turns@.drop_last() =~= o.stats.turns@);
        assert(records_failure(o, recorded, agent_name@, message@, move_made, diagnostics, time_taken_ms));
        Err(message)
    }

    /// Takes the agent's answer to the open turn. A failed call, or an answer
    /// without integer `row` and `col` fields, is recorded as a refused move
    /// (the turn is spent, the same player stays to move); otherwise the cell
    /// is played as `play_move` does.
    pub fn execute_turn(
        &mut self,
        agent_name: &str,
        response: Result<MoveResponse, AgentError>,
        time_taken_ms: u64,
    ) -> (r: Result<(), String>)
        requires
            old(self).wf(),
            old(self).turn_open(),
        ensures
            final(self).wf(),
            response matches Err(e) ==> fails(
                *old(self),
                *final(self),
                r,
                agent_name@,
                agent_error_message(e),
                final(self).stats.turns@.last().move_made,
                None,
                time_taken_ms,
            ),
            response matches Ok(resp) ==> (u64_field(resp.chosen_move, "row"@) is None ==> fails(
                *old(self),
                *final(self),
                r,
                agent_name@,
                missing_field_message("row"@),
                resp.chosen_move,
                resp.diagnostics,
                time_taken_ms,
            )),
            response matches Ok(resp) ==> (u64_field(resp.chosen_move, "row"@) is Some ==> (u64_field(
                resp.chosen_move,
                "col"@,
            ) is None ==> fails(
                *old(self),
                *final(self),
                r,
                agent_name@,
                missing_field_message("col"@),
                resp.chosen_move,
                resp.diagnostics,
                time_taken_ms,
            ))),
            response matches Ok(resp) ==> (u64_field(resp.chosen_move, "row"@) matches Some(row) ==> (u64_field(
                resp.chosen_move,
                "col"@,
            ) matches Some(col) ==> plays(
                *old(self),
                *final(self),
                r,
                agent_name@,
                row as int,
                col as int,
                resp.chosen_move,
                resp.diagnostics,
                time_taken_ms,
            ))),
            final(self).stats.turns@.last().move_valid ==> adds_one_mark(
                snapshot_cells(final(self).stats.turns@.last().state_before),
                snapshot_cells(final(self).stats.turns@.last().state_after),
            ),
    {
        let resp = match response {
            Err(e) => {
                return self.record_failure(agent_name, agent_error_text(&e), null_document(), None, time_taken_ms);
            },
            Ok(resp) => resp,
        };
        let row = match read_u64_field(&resp.chosen_move, "row") {
            Some(x) => x,
            None => {
                return self.record_failure(
                    agent_name,
                    missing_field_text("row"),
                    resp.chosen_move,
                    resp.diagnostics,
                    time_taken_ms,
                );
            },
        };
        let col = match read_u64_field(&resp.chosen_move, "col") {
            Some(x) => x,
            None => {
                return self.record_failure(
                    agent_name,
                    missing_field_text("col"),
                    resp.chosen_move,
                    resp.diagnostics,
                    time_taken_ms,
                );
            },
        };
        self.play_move(agent_name, row, col, resp.chosen_move, resp.diagnostics, time_taken_ms)
    }

    /// Ends the session after `total_duration_ms`: the result names the
    /// winner, if any, and carries the record.
    pub fn finish(self, total_duration_ms: u64) -> (r: TicTacToeResult)
        ensures
            r.winner == self.stats.winner,
            r.error is None,
            r.stats.turns == self.stats.turns,
            r.stats.invalid_moves == self.stats.invalid_moves,
            r.stats.winner == self.stats.winner,
            r.stats.draw == self.stats.draw,
            r.stats.total_duration_ms == total_duration_ms,
    {
        let mut stats = self.stats;
        stats.total_duration_ms = total_duration_ms;
        let winner = match &stats.winner {
            Some(w) => Some(w.clone()),
            None => None,
        };
        TicTacToeResult { winner, stats, error: None }
    }

    /// Ends the session before any turn with the error `error`.
    pub fn fail(self, error: String) -> (r: TicTacToeResult)
        ensures
            r.winner is None,
            r.error == Some(error),
            r.stats == self.stats,
    {
        TicTacToeResult { winner: None, stats: self.stats, error: Some(error) }
    }
}

} // verus!
