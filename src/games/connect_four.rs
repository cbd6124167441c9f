//! Connect four: pieces drop to the lowest free row of a column.

use vstd::prelude::*;
use crate::agent::{
    null_document, read_u64_field, u64_field, AgentError, MoveRequest, MoveResponse, MoveSchema,
};
use crate::games::grid::{cell_count, copy_rows, find_line, has_line, line_from, mask_matches};
use crate::games::stats::{GameSnapshot, GameStats, TurnStats};
use crate::games::messages::{
    agent_error_message, agent_error_text, missing_field_message, missing_field_text, winner_name, winner_text,
};
use crate::session_id::new_game_id;
use crate::text::{decimal, decimal_text};

verus! {

/// Board dimensions and the length of a winning line.
#[derive(Clone, Copy, Debug, PartialEq, Eq, Structural)]
pub struct ConnectFourConfig {
    pub rows: u32,
    pub cols: u32,
    pub win_length: u32,
}

impl Default for ConnectFourConfig {
    fn default() -> (r: Self)
        ensures
            r.rows == 6,
            r.cols == 7,
            r.win_length == 4,
    {
        ConnectFourConfig { rows: 6, cols: 7, win_length: 4 }
    }
}

/// The board (row 0 at the top) and the progress of the game.
#[derive(Clone, Debug)]
pub struct ConnectFourState {
    pub board: Vec<Vec<Option<Player>>>,
    pub current_player: Player,
    pub turn_number: u32,
    pub game_over: bool,
    pub winner: Option<Player>,
}

/// The two colours.
#[derive(Clone, Copy, Debug, PartialEq, Eq, Structural)]
pub enum Player {
    Red,
    Yellow,
}

impl Player {
    /// The name of the colour.
    pub open spec fn label(self) -> Seq<char> {
        match self {
            Player::Red => "Red"@,
            Player::Yellow => "Yellow"@,
        }
    }

    /// The other colour.
    pub open spec fn opponent(self) -> Player {
        match self {
            Player::Red => Player::Yellow,
            Player::Yellow => Player::Red,
        }
    }

    pub fn as_str(&self) -> (r: &'static str)
        ensures
            r@ == self.label(),
    {
        match self {
            Player::Red => "Red",
            Player::Yellow => "Yellow",
        }
    }

    pub fn to_string(&self) -> (r: String)
        ensures
            r@ == self.label(),
    {
        String::from_str(self.as_str())
    }

    pub fn other(&self) -> (r: Player)
        ensures
            r == self.opponent(),
    {
        match self {
            Player::Red => Player::Yellow,
            Player::Yellow => Player::Red,
        }
    }
}

/// The cells of a board, row by row.
pub open spec fn cells(board: Seq<Vec<Option<Player>>>) -> Seq<Seq<Option<Player>>> {
    board.map_values(|row: Vec<Option<Player>>| row@)
}

/// `rows` rows of `cols` cells.
pub open spec fn rect(b: Seq<Seq<Option<Player>>>, rows: int, cols: int) -> bool {
    &&& b.len() == rows
    &&& forall|r: int| 0 <= r < rows ==> #[trigger] b[r].len() == cols
}

/// The cells that hold `p`'s pieces.
pub open spec fn marks(b: Seq<Seq<Option<Player>>>, p: Player) -> spec_fn(int, int) -> bool {
    |r: int, c: int| b[r][c] == Some(p)
}

/// The board with `p`'s piece in cell `(r, c)`.
pub open spec fn place(b: Seq<Seq<Option<Player>>>, r: int, c: int, p: Player) -> Seq<Seq<Option<Player>>> {
    b.update(r, b[r].update(c, Some(p)))
}

/// Looking up column `c` from row `r` towards the top, the first free row.
pub open spec fn free_row_from(b: Seq<Seq<Option<Player>>>, c: int, r: int) -> Option<int>
    decreases r + 1,
{
    if r < 0 {
        None
    } else if b[r][c] is None {
        Some(r)
    } else {
        free_row_from(b, c, r - 1)
    }
}

/// Where a piece dropped into column `c` comes to rest: the lowest free row
/// (the one with the largest index), if any.
pub open spec fn landing_row(b: Seq<Seq<Option<Player>>>, c: int) -> Option<int> {
    free_row_from(b, c, b.len() - 1)
}

/// The landing row is free and every row below it is occupied; with no
/// landing row the whole column is occupied.
pub proof fn lemma_landing_row(b: Seq<Seq<Option<Player>>>, c: int, r: int)
    requires
        -1 <= r < b.len(),
    ensures
        free_row_from(b, c, r) matches Some(k) ==> {
            &&& 0 <= k <= r
            &&& b[k][c] is None
            &&& forall|j: int| k < j <= r ==> (#[trigger] b[j][c]) is Some
        },
        free_row_from(b, c, r) is None ==> forall|j: int| 0 <= j <= r ==> (#[trigger] b[j][c]) is Some,
    decreases r + 1,
{
    if r >= 0 && b[r][c] is Some {
        lemma_landing_row(b, c, r - 1);
    }
}

/// `after` is `before` with one more piece: one empty cell became occupied
/// and no other cell changed.
pub open spec fn adds_one_piece(before: Seq<Seq<Option<Player>>>, after: Seq<Seq<Option<Player>>>) -> bool {
    &&& after.len() == before.len()
    &&& forall|r: int| 0 <= r < before.len() ==> #[trigger] after[r].len() == before[r].len()
    &&& exists|r: int, c: int|
        {
            &&& 0 <= r < before.len() && 0 <= c < before[r].len()
            &&& before[r][c] is None
            &&& after[r][c] is Some
            &&& forall|r2: int, c2: int|
                0 <= r2 < before.len() && 0 <= c2 < before[r2].len() && (r2 != r || c2 != c)
                    ==> #[trigger] after[r2][c2] == before[r2][c2]
        }
}

/// Putting a piece into an empty cell adds exactly that piece.
pub proof fn lemma_place_adds_one_piece(b: Seq<Seq<Option<Player>>>, rows: int, cols: int, r: int, c: int, p: Player)
    requires
        rect(b, rows, cols),
        0 <= r < rows,
        0 <= c < cols,
        b[r][c] is None,
    ensures
        adds_one_piece(b, place(b, r, c, p)),
        rect(place(b, r, c, p), rows, cols),
{
    let a = place(b, r, c, p);
    assert forall|r2: int| 0 <= r2 < b.len() implies #[trigger] a[r2].len() == b[r2].len() by {
        if r2 == r {
            assert(a[r2] == b[r].update(c, Some(p)));
        }
    }
    assert forall|r2: int, c2: int|
        0 <= r2 < b.len() && 0 <= c2 < b[r2].len() && (r2 != r || c2 != c) implies #[trigger] a[r2][c2]
        == b[r2][c2] by {
        if r2 == r {
            assert(a[r2] == b[r].update(c, Some(p)));
        }
    }
    assert(a[r][c] is Some);
}

/// One session of connect four: its settings, state and record.
pub struct ConnectFour {
    pub config: ConnectFourConfig,
    pub state: ConnectFourState,
    pub stats: GameStats,
    pub game_id: String,
}

/// The outcome of a session.
#[derive(Debug)]
pub struct ConnectFourResult {
    pub winner: Option<String>,
    pub stats: GameStats,
    pub error: Option<String>,
}

/// The message of a refused column.
pub open spec fn invalid_column_message(column: nat) -> Seq<char> {
    "Invalid move: column="@ + decimal(column) + " (column full or out of bounds)"@
}

/// Writes the message of a refused column.
fn invalid_column_text(column: u64) -> (r: String)
    ensures
        r@ == invalid_column_message(column as nat),
{
    let mut m = String::from_str("Invalid move: column=");
    m.append(decimal_text(column).as_str());
    m.append(" (column full or out of bounds)");
    m
}

/// The board of a connect-four snapshot.
pub open spec fn snapshot_cells(snap: GameSnapshot) -> Seq<Seq<Option<Player>>> {
    match snap {
        GameSnapshot::ConnectFour { state, .. } => cells(state.board@),
        _ => Seq::empty(),
    }
}

impl ConnectFour {
    /// The cells of the board.
    pub open spec fn board(&self) -> Seq<Seq<Option<Player>>> {
        cells(self.state.board@)
    }

    /// The turn budget: one turn per cell.
    pub open spec fn max_turns(&self) -> int {
        self.config.rows * self.config.cols
    }

    /// `p` holds a line of `win_length` pieces.
    pub open spec fn wins(&self, p: Player) -> bool {
        has_line(
            marks(self.board(), p),
            self.config.rows as int,
            self.config.cols as int,
            self.config.win_length as int,
        )
    }

    /// `column` is a column of the board and its top cell is free.
    pub open spec fn accepts(&self, column: int) -> bool {
        &&& 0 <= column < self.config.cols
        &&& self.config.rows > 0
        &&& self.board()[0][column] is None
    }

    /// The board after dropping `p`'s piece into `column`.
    pub open spec fn dropped(&self, column: int, p: Player) -> Seq<Seq<Option<Player>>> {
        match landing_row(self.board(), column) {
            Some(r) => place(self.board(), r, column, p),
            None => self.board(),
        }
    }

    /// The session is over: won, drawn, or out of turns.
    pub open spec fn finished(&self) -> bool {
        self.state.game_over || self.state.turn_number >= self.max_turns()
    }

    /// A turn has been started and not yet recorded.
    pub open spec fn turn_open(&self) -> bool {
        self.stats.turns@.len() < self.state.turn_number
    }

    /// The board has the configured shape, turn numbers fit, and the record
    /// is consistent.
    pub open spec fn wf(&self) -> bool {
        &&& self.max_turns() <= u32::MAX
        &&& rect(self.board(), self.config.rows as int, self.config.cols as int)
        &&& self.stats.wf()
        &&& self.stats.turns@.len() <= self.state.turn_number
        &&& self.state.turn_number <= self.max_turns()
    }

    /// `snap` is a copy of this game with the board `board`.
    pub open spec fn pictured(&self, snap: GameSnapshot, board: Seq<Seq<Option<Player>>>) -> bool {
        match snap {
            GameSnapshot::ConnectFour { state, config } => {
                &&& cells(state.board@) == board
                &&& state.current_player == self.state.current_player
                &&& state.turn_number == self.state.turn_number
                &&& state.game_over == self.state.game_over
                &&& state.winner == self.state.winner
                &&& config == self.config
            },
            _ => false,
        }
    }

    /// A new game on an empty board, Red to move.
    pub fn new(config: ConnectFourConfig) -> (r: Self)
        requires
            config.rows * config.cols <= u32::MAX,
        ensures
            r.wf(),
            r.config == config,
            forall|i: int, j: int|
                0 <= i < config.rows && 0 <= j < config.cols ==> (#[trigger] r.board()[i][j]) is None,
            r.state.current_player == Player::Red,
            r.state.turn_number == 0,
            !r.state.game_over,
            r.state.winner is None,
            r.stats.turns@.len() == 0,
            r.stats.winner is None,
            !r.stats.draw,
            r.game_id@.subrange(0, 3) == "c4_"@,
            r.game_id@.len() == 11,
    {
        let rows = config.rows as usize;
        let cols = config.cols as usize;
        let mut board: Vec<Vec<Option<Player>>> = Vec::new();
        let mut i: usize = 0;
        while i < rows
            invariant
                rows == config.rows,
                cols == config.cols,
                i <= rows,
                board@.len() == i,
                forall|k: int| 0 <= k < i ==> (#[trigger] board@[k])@.len() == cols,
                forall|k: int, j: int| 0 <= k < i && 0 <= j < cols ==> (#[trigger] board@[k]@[j]) is None,
            decreases rows - i,
        {
            let mut row: Vec<Option<Player>> = Vec::new();
            let mut j: usize = 0;
            while j < cols
                invariant
                    j <= cols,
                    row@.len() == j,
                    forall|k: int| 0 <= k < j ==> #[trigger] row@[k] is None,
                decreases cols - j,
            {
                row.push(None);
                j = j + 1;
            }
            board.push(row);
            i = i + 1;
        }
        proof {
            reveal_strlit("c4_");
        }
        let game_id = new_game_id("c4_");
        let r = ConnectFour {
            config,
            state: ConnectFourState {
                board,
                current_player: Player::Red,
                turn_number: 0,
                game_over: false,
                winner: None,
            },
            stats: GameStats::new(),
            game_id,
        };
        assert(rect(r.board(), rows as int, cols as int));
        r
    }

    /// Whether `column` is on the board and not full (its top cell is free).
    pub fn is_valid_move(&self, column: u32) -> (r: bool)
        requires
            rect(self.board(), self.config.rows as int, self.config.cols as int),
        ensures
            r == self.accepts(column as int),
    {
        if column >= self.config.cols || self.config.rows == 0 {
            return false;
        }
        assert(self.board()[0] == self.state.board@[0]@);
        self.state.board[0][column as usize].is_none()
    }

    /// Drops `player`'s piece into `column`: it lands in the lowest free row.
    /// A full column is left as it is.
    pub fn drop_piece(&mut self, column: u32, player: Player)
        requires
            rect(old(self).board(), old(self).config.rows as int, old(self).config.cols as int),
            column < old(self).config.cols,
        ensures
            final(self).board() == old(self).dropped(column as int, player),
            rect(final(self).board(), old(self).config.rows as int, old(self).config.cols as int),
            final(self).config == old(self).config,
            final(self).state.current_player == old(self).state.current_player,
            final(self).state.turn_number == old(self).state.turn_number,
            final(self).state.game_over == old(self).state.game_over,
            final(self).state.winner == old(self).state.winner,
            final(self).stats == old(self).stats,
            final(self).game_id == old(self).game_id,
    {
        let ghost b = self.board();
        let col = column as usize;
        let mut row = self.config.rows as usize;
        while row > 0
            invariant
                b == cells(self.state.board@),
                b == old(self).board(),
                rect(b, self.config.rows as int, self.config.cols as int),
                col == column,
                col < self.config.cols,
                row <= self.config.rows,
                landing_row(b, col as int) == free_row_from(b, col as int, row - 1),
                self.config == old(self).config,
                self.state.current_player == old(self).state.current_player,
                self.state.turn_number == old(self).state.turn_number,
                self.state.game_over == old(self).state.game_over,
                self.state.winner == old(self).state.winner,
                self.stats == old(self).stats,
                self.game_id == old(self).game_id,
            decreases row,
        {
            row = row - 1;
            assert(b[row as int] == self.state.board@[row as int]@);
            if self.state.board[row][col].is_none() {
                self.state.board[row][col] = Some(player);
                assert(self.board() =~= place(b, row as int, col as int, player));
                proof {
                    let a = place(b, row as int, col as int, player);
                    assert forall|r: int| 0 <= r < self.config.rows implies #[trigger] a[r].len() == self.config.cols by {
                        if r == row {
                            assert(a[r] == b[r].update(col as int, Some(player)));
                        }
                    }
                }
                return;
            }
        }
    }

    /// Whether the player to move holds a line of `win_length` pieces in a
    /// row, a column or a diagonal.
    pub fn check_win(&self) -> (r: bool)
        requires
            rect(self.board(), self.config.rows as int, self.config.cols as int),
        ensures
            r == self.wins(self.state.current_player),
    {
        let rows = self.config.rows as usize;
        let cols = self.config.cols as usize;
        let len = self.config.win_length as usize;
        let p = self.state.current_player;
        let ghost cell = marks(self.board(), p);
        if len == 0 {
            assert(line_from(cell, rows as int, cols as int, 0, 0, 0));
            return true;
        }
        let mask = piece_mask(&self.state.board, rows, cols, p);
        find_line(&mask, rows, cols, len, Ghost(cell))
    }

    /// A copy of the game as it stands.
    pub fn snapshot(&self) -> (s: GameSnapshot)
        ensures
            self.pictured(s, self.board()),
    {
        let board = copy_rows(&self.state.board);
        assert(cells(board@) =~= self.board());
        GameSnapshot::ConnectFour {
            state: ConnectFourState {
                board,
                current_player: self.state.current_player,
                turn_number: self.state.turn_number,
                game_over: self.state.game_over,
                winner: self.state.winner,
            },
            config: self.config,
        }
    }
}

/// Which cells of a board of `rows` by `cols` hold `p`'s pieces.
fn piece_mask(board: &Vec<Vec<Option<Player>>>, rows: usize, cols: usize, p: Player) -> (m: Vec<Vec<bool>>)
    requires
        rect(cells(board@), rows as int, cols as int),
    ensures
        mask_matches(m@, marks(cells(board@), p), rows as int, cols as int),
{
    let ghost b = cells(board@);
    let mut m: Vec<Vec<bool>> = Vec::new();
    let mut i: usize = 0;
    while i < rows
        invariant
            b == cells(board@),
            rect(b, rows as int, cols as int),
            i <= rows,
            m@.len() == i,
            forall|k: int| 0 <= k < i ==> (#[trigger] m@[k])@.len() == cols,
            forall|k: int, j: int| 0 <= k < i && 0 <= j < cols ==> #[trigger] m@[k]@[j] == (b[k][j] == Some(p)),
        decreases rows - i,
    {
        let mut row: Vec<bool> = Vec::new();
        let mut j: usize = 0;
        assert(b[i as int] == board@[i as int]@);
        while j < cols
            invariant
                b == cells(board@),
                rect(b, rows as int, cols as int),
                i < rows,
                j <= cols,
                row@.len() == j,
                forall|k: int| 0 <= k < j ==> #[trigger] row@[k] == (b[i as int][k] == Some(p)),
            decreases cols - j,
        {
            assert(b[i as int] == board@[i as int]@);
            let held = match board[i][j] {
                Some(q) => q == p,
                None => false,
            };
            row.push(held);
            j = j + 1;
        }
        m.push(row);
        i = i + 1;
    }
    m
}

/// `t` records `agent`'s attempt to drop into `column` in `g` as `g` stood.
pub open spec fn records_attempt(
    g: ConnectFour,
    t: TurnStats,
    agent: Seq<char>,
    column: int,
    move_made: serde_json::Value,
    diagnostics: Option<String>,
    time: u64,
) -> bool {
    let valid = g.accepts(column);
    &&& t.turn_number == g.state.turn_number
    &&& t.player@ == agent
    &&& t.move_made == move_made
    &&& t.time_taken_ms == time
    &&& t.move_valid == valid
    &&& t.diagnostics == diagnostics
    &&& valid ==> t.error_message is None
    &&& !valid ==> (t.error_message matches Some(m) && m@ == invalid_column_message(column as nat))
    &&& g.pictured(t.state_before, g.board())
    &&& g.pictured(
        t.state_after,
        if valid {
            g.dropped(column, g.state.current_player)
        } else {
            g.board()
        },
    )
}

/// One move attempt takes the game from `o` to `s` and answers `r`: the
/// column is checked, the piece dropped when legal and the attempt recorded;
/// then a win ends the game, a spent turn budget draws it, and otherwise the
/// other player moves. A refused move leaves the same player to move.
pub open spec fn plays(
    o: ConnectFour,
    s: ConnectFour,
    r: Result<(), String>,
    agent: Seq<char>,
    column: int,
    move_made: serde_json::Value,
    diagnostics: Option<String>,
    time: u64,
) -> bool {
    let p = o.state.current_player;
    let valid = o.accepts(column);
    &&& s.config == o.config
    &&& s.game_id == o.game_id
    &&& s.state.turn_number == o.state.turn_number
    &&& s.board() == if valid {
        o.dropped(column, p)
    } else {
        o.board()
    }
    &&& s.stats.turns@.len() == o.stats.turns@.len() + 1
    &&& s.stats.turns@.drop_last() == o.stats.turns@
    &&& records_attempt(o, s.stats.turns@.last(), agent, column, move_made, diagnostics, time)
    &&& s.stats.total_duration_ms == o.stats.total_duration_ms
    &&& (r is Ok <==> valid)
    &&& !valid ==> {
        &&& r matches Err(m) && m@ == invalid_column_message(column as nat)
        &&& s.state.current_player == p
        &&& s.state.game_over == o.state.game_over
        &&& s.state.winner == o.state.winner
        &&& s.stats.winner == o.stats.winner
        &&& s.stats.draw == o.stats.draw
    }
    &&& valid && s.wins(p) ==> {
        &&& s.state.game_over
        &&& s.state.winner == Some(p)
        &&& s.state.current_player == p
        &&& s.stats.winner matches Some(w) && w@ == winner_name(agent, p.label())
        &&& s.stats.draw == o.stats.draw
    }
    &&& valid && !s.wins(p) && o.state.turn_number >= o.max_turns() ==> {
        &&& s.state.game_over
        &&& s.stats.draw
        &&& s.state.current_player == p
        &&& s.state.winner == o.state.winner
        &&& s.stats.winner == o.stats.winner
    }
    &&& valid && !s.wins(p) && o.state.turn_number < o.max_turns() ==> {
        &&& s.state.current_player == p.opponent()
        &&& s.state.game_over == o.state.game_over
        &&& s.state.winner == o.state.winner
        &&& s.stats.winner == o.stats.winner
        &&& s.stats.draw == o.stats.draw
    }
}

/// A column whose cells are all occupied is refused.
pub proof fn lemma_full_column_refused(g: ConnectFour, column: int)
    requires
        g.config.rows > 0,
        forall|r: int| 0 <= r < g.config.rows ==> (#[trigger] g.board()[r][column]) is Some,
    ensures
        !g.accepts(column),
{
    assert(g.board()[0][column] is Some);
}

/// A legal drop lands in the column's lowest free row and adds exactly one
/// piece.
pub proof fn lemma_legal_drop(g: ConnectFour, column: int, p: Player)
    requires
        rect(g.board(), g.config.rows as int, g.config.cols as int),
        g.accepts(column),
    ensures
        landing_row(g.board(), column) is Some,
        adds_one_piece(g.board(), g.dropped(column, p)),
        rect(g.dropped(column, p), g.config.rows as int, g.config.cols as int),
{
    let b = g.board();
    lemma_landing_row(b, column, b.len() - 1);
    if landing_row(b, column) is None {
        assert(b[0][column] is Some);
    }
    let r = landing_row(b, column)->0;
    lemma_place_adds_one_piece(b, g.config.rows as int, g.config.cols as int, r, column, p);
}

/// A drop into a full column is refused: the board stays as it was, the
/// attempt is recorded as invalid, the count of refused moves grows by one,
/// and the same player stays to move.
pub proof fn lemma_full_column_attempt(
    o: ConnectFour,
    s: ConnectFour,
    r: Result<(), String>,
    agent: Seq<char>,
    column: int,
    move_made: serde_json::Value,
    diagnostics: Option<String>,
    time: u64,
)
    requires
        o.wf(),
        s.wf(),
        o.config.rows > 0,
        0 <= column < o.config.cols,
        forall|row: int| 0 <= row < o.config.rows ==> (#[trigger] o.board()[row][column]) is Some,
        plays(o, s, r, agent, column, move_made, diagnostics, time),
    ensures
        r is Err,
        s.board() == o.board(),
        !s.stats.turns@.last().move_valid,
        s.stats.invalid_moves == o.stats.invalid_moves + 1,
        s.state.current_player == o.state.current_player,
{
    lemma_full_column_refused(o, column);
    assert(s.stats.turns@.drop_last() == o.stats.turns@);
}

/// A legal drop adds exactly one piece to the board and counts no refused
/// move.
pub proof fn lemma_legal_attempt(
    o: ConnectFour,
    s: ConnectFour,
    r: Result<(), String>,
    agent: Seq<char>,
    column: int,
    move_made: serde_json::Value,
    diagnostics: Option<String>,
    time: u64,
)
    requires
        o.wf(),
        s.wf(),
        plays(o, s, r, agent, column, move_made, diagnostics, time),
        r is Ok,
    ensures
        adds_one_piece(o.board(), s.board()),
        s.stats.invalid_moves == o.stats.invalid_moves,
{
    lemma_legal_drop(o, column, o.state.current_player);
    assert(s.stats.turns@.drop_last() == o.stats.turns@);
}

/// `t` records an attempt of `agent` in `g` that yielded nothing to play:
/// refused with `message`, the board as it stood before and after.
pub open spec fn records_failure(
    g: ConnectFour,
    t: TurnStats,
    agent: Seq<char>,
    message: Seq<char>,
    move_made: serde_json::Value,
    diagnostics: Option<String>,
    time: u64,
) -> bool {
    &&& t.turn_number == g.state.turn_number
    &&& t.player@ == agent
    &&& t.move_made == move_made
    &&& t.time_taken_ms == time
    &&& !t.move_valid
    &&& t.diagnostics == diagnostics
    &&& t.error_message matches Some(m) && m@ == message
    &&& g.pictured(t.state_before, g.board())
    &&& g.pictured(t.state_after, g.board())
}

/// An attempt that yielded nothing to play takes the game from `o` to `s`
/// and answers `r`: it is recorded as a refused move with `message`, the
/// count of refused moves grows by one, and the game itself (board, player
/// to move, whether it is over) stays as it was.
pub open spec fn fails(
    o: ConnectFour,
    s: ConnectFour,
    r: Result<(), String>,
    agent: Seq<char>,
    message: Seq<char>,
    move_made: serde_json::Value,
    diagnostics: Option<String>,
    time: u64,
) -> bool {
    &&& s.config == o.config
    &&& s.state == o.state
    &&& s.game_id == o.game_id
    &&& s.stats.turns@.len() == o.stats.turns@.len() + 1
    &&& s.stats.turns@.drop_last() == o.stats.turns@
    &&& records_failure(o, s.stats.turns@.last(), agent, message, move_made, diagnostics, time)
    &&& s.stats.invalid_moves == o.stats.invalid_moves + 1
    &&& s.stats.winner == o.stats.winner
    &&& s.stats.draw == o.stats.draw
    &&& s.stats.total_duration_ms == o.stats.total_duration_ms
    &&& r matches Err(m) && m@ == message
}

impl ConnectFour {
    /// Whether the loop of turns is over: the game ended or the turn budget
    /// is spent.
    pub fn is_finished(&self) -> (r: bool)
        ensures
            r == self.finished(),
    {
        let max = cell_count(self.config.rows, self.config.cols);
        self.state.game_over || self.state.turn_number as u64 >= max
    }

    /// Which agent moves now: `0` for Red, `1` for Yellow.
    pub fn current_agent_index(&self) -> (r: usize)
        ensures
            r == if self.state.current_player == Player::Red { 0usize } else { 1usize },
    {
        match self.state.current_player {
            Player::Red => 0,
            Player::Yellow => 1,
        }
    }

    /// Opens the next turn: counts it and builds the request for the player
    /// to move.
    pub fn start_turn(&mut self) -> (req: MoveRequest)
        requires
            old(self).wf(),
            !old(self).finished(),
        ensures
            final(self).wf(),
            final(self).turn_open(),
            final(self).state.turn_number == old(self).state.turn_number + 1,
            final(self).state.board == old(self).state.board,
            final(self).state.current_player == old(self).state.current_player,
            final(self).state.game_over == old(self).state.game_over,
            final(self).state.winner == old(self).state.winner,
            final(self).config == old(self).config,
            final(self).stats == old(self).stats,
            final(self).game_id == old(self).game_id,
            req.turn_index == final(self).state.turn_number,
            req.game_id@ == final(self).game_id@,
            final(self).pictured(req.state, final(self).board()),
            req.expected_move_schema == (MoveSchema::Column { max_index: (old(self).config.cols - 1) as u32 }),
    {
        proof {
            let rows = self.config.rows as int;
            let cols = self.config.cols as int;
            let t = self.state.turn_number as int;
            assert(cols >= 1) by (nonlinear_arith)
                requires
                    t < rows * cols,
                    t >= 0,
                    rows >= 0,
                    cols >= 0,
            ;
        }
        self.state.turn_number = self.state.turn_number + 1;
        let state = self.snapshot();
        MoveRequest {
            turn_index: self.state.turn_number,
            game_id: self.game_id.clone(),
            state,
            expected_move_schema: MoveSchema::Column { max_index: self.config.cols - 1 },
        }
    }

    /// Drops a piece of the player to move into `column` and records the
    /// attempt; then ends the game on a win or a spent turn budget, or hands
    /// the move to the other player. A refused move (a column off the board
    /// or full) is recorded and answered with its message, and the same
    /// player stays to move.
    pub fn play_move(
        &mut self,
        agent_name: &str,
        column: u64,
        move_made: serde_json::Value,
        diagnostics: Option<String>,
        time_taken_ms: u64,
    ) -> (r: Result<(), String>)
        requires
            old(self).wf(),
            old(self).turn_open(),
        ensures
            final(self).wf(),
            plays(*old(self), *final(self), r, agent_name@, column as int, move_made, diagnostics, time_taken_ms),
            final(self).stats.turns@.last().move_valid ==> adds_one_piece(
                snapshot_cells(final(self).stats.turns@.last().state_before),
                snapshot_cells(final(self).stats.turns@.last().state_after),
            ),
    {
        let ghost o = *self;
        let p = self.state.current_player;
        let state_before = self.snapshot();
        let valid = column < self.config.cols as u64 && self.is_valid_move(column as u32);
        let error_message = if valid {
            None
        } else {
            Some(invalid_column_text(column))
        };
        if valid {
            proof {
                lemma_legal_drop(o, column as int, p);
            }
            self.drop_piece(column as u32, p);
        }
        let state_after = self.snapshot();
        let turn = TurnStats {
            turn_number: self.state.turn_number,
            player: String::from_str(agent_name),
            move_made,
            time_taken_ms,
            move_valid: valid,
            error_message,
            state_before,
            state_after,
            diagnostics,
        };
        let ghost recorded = turn;
        self.stats.add_turn(turn);
        assert(self.stats.turns@.drop_last() =~= o.stats.turns@);
        assert(records_attempt(o, recorded, agent_name@, column as int, move_made, diagnostics, time_taken_ms));
        if !valid {
            return Err(invalid_column_text(column));
        }
        if self.check_win() {
            self.state.game_over = true;
            self.state.winner = Some(p);
            self.stats.winner = Some(winner_text(agent_name, p.as_str()));
        } else if self.state.turn_number as u64 >= cell_count(self.config.rows, self.config.cols) {
            self.state.game_over = true;
            self.stats.draw = true;
        } else {
            self.state.current_player = p.other();
        }
        Ok(())
    }

    /// Records the open turn as refused with `message`: the agent gave no
    /// playable move. The game itself is left as it was.
    pub fn record_failure(
        &mut self,
        agent_name: &str,
        message: String,
        move_made: serde_json::Value,
        diagnostics: Option<String>,
        time_taken_ms: u64,
    ) -> (r: Result<(), String>)
        requires
            old(self).wf(),
            old(self).turn_open(),
        ensures
            final(self).wf(),
            fails(*old(self), *final(self), r, agent_name@, message@, move_made, diagnostics, time_taken_ms),
    {
        let ghost o = *self;
        let snapshot = self.snapshot();
        let turn = TurnStats {
            turn_number: self.state.turn_number,
            player: String::from_str(agent_name),
            move_made,
            time_taken_ms,
            move_valid: false,
            error_message: Some(message.clone()),
            state_before: snapshot,
            state_after: self.snapshot(),
            diagnostics,
        };
        let ghost recorded = turn;
        self.stats.add_turn(turn);
        assert(self.stats.turns@.drop_last() =~= o.stats.turns@);
        assert(records_failure(o, recorded, agent_name@, message@, move_made, diagnostics, time_taken_ms));
        Err(message)
    }

    /// Takes the agent's answer to the open turn. A failed call, or an answer
    /// without an integer `column` field, is recorded as a refused move (the
    /// turn is spent, the same player stays to move); otherwise the piece is
    /// dropped as `play_move` does.
    pub fn execute_turn(
        &mut self,
        agent_name: &str,
        response: Result<MoveResponse, AgentError>,
        time_taken_ms: u64,
    ) -> (r: Result<(), String>)
        requires
            old(self).wf(),
            old(self).turn_open(),
        ensures
            final(self).wf(),
            response matches Err(e) ==> fails(
                *old(self),
                *final(self),
                r,
                agent_name@,
                agent_error_message(e),
                final(self).stats.turns@.last().move_made,
                None,
                time_taken_ms,
            ),
            response matches Ok(resp) ==> (u64_field(resp.chosen_move, "column"@) is None ==> fails(
                *old(self),
                *final(self),
                r,
                agent_name@,
                missing_field_message("column"@),
                resp.chosen_move,
                resp.diagnostics,
                time_taken_ms,
            )),
            response matches Ok(resp) ==> (u64_field(resp.chosen_move, "column"@) matches Some(column) ==> plays(
                *old(self),
                *final(self),
                r,
                agent_name@,
                column as int,
                resp.chosen_move,
                resp.diagnostics,
                time_taken_ms,
            )),
            final(self).stats.turns@.last().move_valid ==> adds_one_piece(
                snapshot_cells(final(self).stats.turns@.last().state_before),
                snapshot_cells(final(self).stats.turns@.last().state_after),
            ),
    {
        let resp = match response {
            Err(e) => {
                return self.record_failure(agent_name, agent_error_text(&e), null_document(), None, time_taken_ms);
            },
            Ok(resp) => resp,
        };
        let column = match read_u64_field(&resp.chosen_move, "column") {
            Some(x) => x,
            None => {
                return self.record_failure(
                    agent_name,
                    missing_field_text("column"),
                    resp.chosen_move,
                    resp.diagnostics,
                    time_taken_ms,
                );
            },
        };
        self.play_move(agent_name, column, resp.chosen_move, resp.diagnostics, time_taken_ms)
    }

    /// Ends the session after `total_duration_ms`: the result names the
    /// winner, if any, and carries the record.
    pub fn finish(self, total_duration_ms: u64) -> (r: ConnectFourResult)
        ensures
            r.winner == self.stats.winner,
            r.error is None,
            r.stats.turns == self.stats.turns,
            r.stats.invalid_moves == self.stats.invalid_moves,
            r.stats.winner == self.stats.winner,
            r.stats.draw == self.stats.draw,
            r.stats.total_duration_ms == total_duration_ms,
    {
        let mut stats = self.stats;
        stats.total_duration_ms = total_duration_ms;
        let winner = match &stats.winner {
            Some(w) => Some(w.clone()),
            None => None,
        };
        ConnectFourResult { winner, stats, error: None }
    }

    /// Ends the session before any turn with the error `error`.
    pub fn fail(self, error: String) -> (r: ConnectFourResult)
        ensures
            r.winner is None,
            r.error == Some(error),
            r.stats == self.stats,
    {
        ConnectFourResult { winner: None, stats: self.stats, error: Some(error) }
    }
}

} // verus!
