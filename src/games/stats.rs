//! Per-turn records and the statistics of a whole game.

use vstd::prelude::*;
use crate::games::connect_four::{ConnectFourConfig, ConnectFourState};
use crate::games::rock_paper_scissors::{RockPaperScissorsConfig, RockPaperScissorsState};
use crate::games::tic_tac_toe::{TicTacToeConfig, TicTacToeState};

verus! {

/// A copy of a game's state, taken before or after a move.
#[derive(Clone, Debug)]
pub enum GameSnapshot {
    TicTacToe { state: TicTacToeState, config: TicTacToeConfig },
    ConnectFour { state: ConnectFourState, config: ConnectFourConfig },
    RockPaperScissors { state: RockPaperScissorsState, config: RockPaperScissorsConfig },
}

/// What happened in one turn attempt.
#[derive(Debug)]
pub struct TurnStats {
    /// The turn number (counted from 1)
    pub turn_number: u32,
    /// The agent that made this turn
    pub player: String,
    /// The move document the agent sent
    pub move_made: serde_json::Value,
    /// Time taken to obtain the move
    pub time_taken_ms: u64,
    /// Whether the move was legal and applied
    pub move_valid: bool,
    /// Why the move was refused
    pub error_message: Option<String>,
    /// The game before the move
    pub state_before: GameSnapshot,
    /// The game after the move (the same as before when it was refused)
    pub state_after: GameSnapshot,
    /// Notes from the agent
    pub diagnostics: Option<String>,
}

/// The record of a complete game.
#[derive(Debug)]
pub struct GameStats {
    /// Every turn attempt, in order
    pub turns: Vec<TurnStats>,
    /// Total game duration in milliseconds
    pub total_duration_ms: u64,
    /// Number of refused moves
    pub invalid_moves: u32,
    /// Winner of the game (None if drawn or incomplete)
    pub winner: Option<String>,
    /// Whether the game ended in a draw
    pub draw: bool,
}

/// How many of the records hold a refused move.
pub open spec fn invalid_count(turns: Seq<TurnStats>) -> nat
    decreases turns.len(),
{
    if turns.len() == 0 {
        0
    } else {
        invalid_count(turns.drop_last()) + if turns.last().move_valid { 0nat } else { 1nat }
    }
}

/// The sum of the recorded turn times.
pub open spec fn time_sum(turns: Seq<TurnStats>) -> nat
    decreases turns.len(),
{
    if turns.len() == 0 {
        0
    } else {
        (time_sum(turns.drop_last()) + turns.last().time_taken_ms) as nat
    }
}

/// Fewer refused moves than records, or as many.
pub proof fn lemma_invalid_count_bound(turns: Seq<TurnStats>)
    ensures
        invalid_count(turns) <= turns.len(),
    decreases turns.len(),
{
    if turns.len() > 0 {
        lemma_invalid_count_bound(turns.drop_last());
    }
}

impl GameStats {
    /// The count of refused moves agrees with the records.
    pub open spec fn wf(&self) -> bool {
        self.invalid_moves == invalid_count(self.turns@)
    }

    /// Empty statistics.
    pub fn new() -> (r: Self)
        ensures
            r.wf(),
            r.turns@.len() == 0,
            r.total_duration_ms == 0,
            r.invalid_moves == 0,
            r.winner is None,
            !r.draw,
    {
        GameStats { turns: Vec::new(), total_duration_ms: 0, invalid_moves: 0, winner: None, draw: false }
    }

    /// Appends a record, counting it when its move was refused.
    pub fn add_turn(&mut self, turn: TurnStats)
        requires
            old(self).wf(),
            old(self).turns@.len() < u32::MAX,
        ensures
            final(self).wf(),
            final(self).turns@ == old(self).turns@.push(turn),
            final(self).invalid_moves == old(self).invalid_moves + if turn.move_valid { 0int } else { 1int },
            final(self).total_duration_ms == old(self).total_duration_ms,
            final(self).winner == old(self).winner,
            final(self).draw == old(self).draw,
    {
        proof {
            lemma_invalid_count_bound(self.turns@);
        }
        if !turn.move_valid {
            self.invalid_moves = self.invalid_moves + 1;
        }
        let ghost before = self.turns@;
        self.turns.push(turn);
        assert(self.turns@.drop_last() == before);
    }

    /// The sum of all recorded turn times.
    pub fn total_turn_time_ms(&self) -> (r: u128)
        requires
            self.turns@.len() <= u32::MAX,
        ensures
            r == time_sum(self.turns@),
    {
        let mut total: u128 = 0;
        let mut i: usize = 0;
        while i < self.turns.len()
            invariant
                i <= self.turns@.len() <= u32::MAX,
                total == time_sum(self.turns@.subrange(0, i as int)),
                total <= i * 0xffff_ffff_ffff_ffffu128,
            decreases self.turns@.len() - i,
        {
            let t = self.turns[i].time_taken_ms;
            proof {
                let s = self.turns@.subrange(0, i + 1);
                assert(s.drop_last() == self.turns@.subrange(0, i as int));
                assert(total + t <= (i + 1) * 0xffff_ffff_ffff_ffffu128) by (nonlinear_arith)
                    requires
                        total <= i * 0xffff_ffff_ffff_ffffu128,
                        t <= 0xffff_ffff_ffff_ffffu128,
                ;
                assert((i + 1) * 0xffff_ffff_ffff_ffffu128 <= 0x1_0000_0000 * 0xffff_ffff_ffff_ffffu128) by (nonlinear_arith)
                    requires
                        i + 1 <= 0x1_0000_0000,
                ;
            }
            total = total + t as u128;
            i = i + 1;
        }
        assert(self.turns@.subrange(0, i as int) == self.turns@);
        total
    }

    /// The mean turn time in whole milliseconds (rounded down), `0` when no
    /// turn was recorded.
    pub fn average_turn_time_ms(&self) -> (r: u64)
        requires
            self.turns@.len() <= u32::MAX,
        ensures
            self.turns@.len() == 0 ==> r == 0,
            self.turns@.len() > 0 ==> r == time_sum(self.turns@) / self.turns@.len(),
    {
        if self.turns.len() == 0 {
            return 0;
        }
        let total = self.total_turn_time_ms();
        let n = self.turns.len() as u128;
        proof {
            lemma_time_sum_bound(self.turns@);
            let len = self.turns@.len() as int;
            let t = total as int;
            assert(t / len <= 0xffff_ffff_ffff_ffffu64) by (nonlinear_arith)
                requires
                    t <= len * 0xffff_ffff_ffff_ffffu64,
                    len > 0,
            ;
        }
        (total / n) as u64
    }

    /// The number of records.
    pub fn total_turns(&self) -> (r: u32)
        requires
            self.turns@.len() <= u32::MAX,
        ensures
            r == self.turns@.len(),
    {
        self.turns.len() as u32
    }
}

/// Each recorded time fits in `u64`.
pub proof fn lemma_time_sum_bound(turns: Seq<TurnStats>)
    ensures
        time_sum(turns) <= turns.len() * 0xffff_ffff_ffff_ffffu64,
    decreases turns.len(),
{
    if turns.len() > 0 {
        lemma_time_sum_bound(turns.drop_last());
        let n = turns.len();
        assert((n - 1) * 0xffff_ffff_ffff_ffffu64 + 0xffff_ffff_ffff_ffffu64 == n * 0xffff_ffff_ffff_ffffu64) by (nonlinear_arith);
    }
}

impl Default for GameStats {
    fn default() -> (r: Self)
        ensures
            r.wf(),
            r.turns@.len() == 0,
            r.total_duration_ms == 0,
            r.invalid_moves == 0,
            r.winner is None,
            !r.draw,
    {
        GameStats::new()
    }
}

} // verus!
