//! Rock-paper-scissors: both agents choose in each round; the first to win
//! a majority of the configured rounds takes the match.

use vstd::prelude::*;
use crate::agent::{read_str_field, str_field, AgentError, MoveRequest, MoveResponse, MoveSchema};
use crate::games::messages::{winner_name, winner_text};
use crate::games::stats::{GameSnapshot, GameStats, TurnStats};
use crate::session_id::new_game_id;
use crate::text::{lower_of, lowercase, same_text};

verus! {

/// The number of rounds to play.
#[derive(Clone, Copy, Debug, PartialEq, Eq, Structural)]
pub struct RockPaperScissorsConfig {
    pub rounds: u32,
}

impl Default for RockPaperScissorsConfig {
    fn default() -> (r: Self)
        ensures
            r.rounds == 3,
    {
        RockPaperScissorsConfig { rounds: 3 }
    }
}

/// A hand.
#[derive(Clone, Copy, Debug, PartialEq, Eq, Structural)]
pub enum Choice {
    Rock,
    Paper,
    Scissors,
}

/// `a` beats `b`: rock beats scissors, paper beats rock, scissors beat paper.
pub open spec fn beats(a: Choice, b: Choice) -> bool {
    ||| a == Choice::Rock && b == Choice::Scissors
    ||| a == Choice::Paper && b == Choice::Rock
    ||| a == Choice::Scissors && b == Choice::Paper
}

/// The name of a hand, as agents write it.
pub open spec fn choice_label(c: Choice) -> Seq<char> {
    match c {
        Choice::Rock => "rock"@,
        Choice::Paper => "paper"@,
        Choice::Scissors => "scissors"@,
    }
}

/// The hand a (lower-case) name stands for.
pub open spec fn choice_named(s: Seq<char>) -> Option<Choice> {
    if s == "rock"@ {
        Some(Choice::Rock)
    } else if s == "paper"@ {
        Some(Choice::Paper)
    } else if s == "scissors"@ {
        Some(Choice::Scissors)
    } else {
        None
    }
}

/// Who takes a round: `0` for the first player, `1` for the second, none on
/// a tie or when a hand is missing.
pub open spec fn round_winner(c1: Option<Choice>, c2: Option<Choice>) -> Option<usize> {
    match (c1, c2) {
        (Some(a), Some(b)) => if beats(a, b) {
            Some(0usize)
        } else if beats(b, a) {
            Some(1usize)
        } else {
            None
        },
        _ => None,
    }
}

/// Each hand beats exactly one other and loses to exactly one other; no hand
/// beats itself; a round with a missing hand has no winner.
pub proof fn lemma_beats_rules(a: Choice, b: Choice, c: Option<Choice>)
    ensures
        beats(Choice::Rock, Choice::Scissors),
        beats(Choice::Paper, Choice::Rock),
        beats(Choice::Scissors, Choice::Paper),
        !beats(a, a),
        beats(a, b) ==> !beats(b, a),
        a != b ==> beats(a, b) || beats(b, a),
        round_winner(None, c) is None,
        round_winner(c, None) is None,
        round_winner(Some(a), Some(b)) == Some(0usize) <==> beats(a, b),
        round_winner(Some(a), Some(b)) == Some(1usize) <==> beats(b, a),
{
}

impl Choice {
    pub fn as_str(&self) -> (r: &'static str)
        ensures
            r@ == choice_label(*self),
    {
        match self {
            Choice::Rock => "rock",
            Choice::Paper => "paper",
            Choice::Scissors => "scissors",
        }
    }

    pub fn to_string(&self) -> (r: String)
        ensures
            r@ == choice_label(*self),
    {
        String::from_str(self.as_str())
    }

    /// Whether this hand beats `other`.
    pub fn beats(&self, other: Choice) -> (r: bool)
        ensures
            r == beats(*self, other),
    {
        match (self, other) {
            (Choice::Rock, Choice::Scissors) => true,
            (Choice::Paper, Choice::Rock) => true,
            (Choice::Scissors, Choice::Paper) => true,
            _ => false,
        }
    }
}

/// The hand named by `text`, read without regard to case; none when the text
/// names no hand.
pub fn choice_from_text(text: &str) -> (r: Option<Choice>)
    ensures
        r == choice_named(lower_of(text@)),
{
    let lower = lowercase(text);
    if same_text(lower.as_str(), "rock") {
        Some(Choice::Rock)
    } else if same_text(lower.as_str(), "paper") {
        Some(Choice::Paper)
    } else if same_text(lower.as_str(), "scissors") {
        Some(Choice::Scissors)
    } else {
        None
    }
}

/// Scores, the rounds played so far and whether the match is over.
#[derive(Clone, Debug)]
pub struct RockPaperScissorsState {
    pub round: u32,
    pub player_one_score: u32,
    pub player_two_score: u32,
    pub round_history: Vec<RoundResult>,
    pub game_over: bool,
}

/// One round: the hands shown and who took it (`0` for player one, `1` for
/// player two, none on a tie).
#[derive(Clone, Copy, Debug, PartialEq, Eq, Structural)]
pub struct RoundResult {
    pub round_number: u32,
    pub player_one_choice: Option<Choice>,
    pub player_two_choice: Option<Choice>,
    pub winner: Option<usize>,
}

/// One match of rock-paper-scissors: its settings, state and record.
pub struct RockPaperScissors {
    pub config: RockPaperScissorsConfig,
    pub state: RockPaperScissorsState,
    pub stats: GameStats,
    pub game_id: String,
}

/// The outcome of a match.
#[derive(Debug)]
pub struct RockPaperScissorsResult {
    pub winner: Option<String>,
    pub stats: GameStats,
    pub error: Option<String>,
}

/// The message of an answer without a `choice` text.
pub open spec fn missing_choice_message(player: Seq<char>) -> Seq<char> {
    player + ": Missing or invalid 'choice' field"@
}

/// The message of a failed call of the agent in `seat`.
pub open spec fn seat_error_message(seat: Seq<char>, e: AgentError) -> Seq<char> {
    seat + " error: "@ + e.message()
}

fn seat_error_text(seat: &str, e: &AgentError) -> (r: String)
    ensures
        r@ == seat_error_message(seat@, *e),
{
    String::from_str(seat).concat(" error: ").concat(e.to_string().as_str())
}

/// How an answer reads: the hand shown (if any), whether the answer is a
/// valid move, and the message it is refused with.
pub open spec fn parse_reading(parsed: Result<Option<Choice>, String>) -> (Option<Choice>, bool, Option<Seq<char>>) {
    match parsed {
        Ok(Some(c)) => (Some(c), true, None),
        Ok(None) => (None, false, Some("Invalid choice"@)),
        Err(e) => (None, false, Some(e@)),
    }
}

/// How the answer document `v` of the player in `seat` reads: an error when
/// it has no `choice` text; no hand ("Invalid choice") when the text,
/// lower-cased, names none; the hand otherwise.
pub open spec fn answer_reading(v: serde_json::Value, seat: Seq<char>) -> (Option<Choice>, bool, Option<Seq<char>>) {
    match str_field(v, "choice"@) {
        None => (None, false, Some(missing_choice_message(seat))),
        Some(t) => match choice_named(lower_of(t)) {
            Some(c) => (Some(c), true, None),
            None => (None, false, Some("Invalid choice"@)),
        },
    }
}

/// `t` records an answer of `agent` in match `g`, numbered `number`.
pub open spec fn records_answer(
    g: RockPaperScissors,
    t: TurnStats,
    number: int,
    agent: Seq<char>,
    reading: (Option<Choice>, bool, Option<Seq<char>>),
    response: MoveResponse,
    time: u64,
) -> bool {
    &&& t.turn_number == number
    &&& t.player@ == agent
    &&& t.move_made == response.chosen_move
    &&& t.diagnostics == response.diagnostics
    &&& t.time_taken_ms == time
    &&& t.move_valid == reading.1
    &&& (match reading.2 {
        Some(m) => t.error_message matches Some(e) && e@ == m,
        None => t.error_message is None,
    })
    &&& g.pictured(t.state_before)
    &&& g.pictured(t.state_after)
}

/// The round of `g` is settled from how the two answers read: both are
/// recorded (player one numbered `2 * round - 1`, player two `2 * round`),
/// and `rr` says which hands were shown and who took the round.
pub open spec fn settles(
    g: RockPaperScissors,
    s: RockPaperScissors,
    rr: RoundResult,
    name1: Seq<char>,
    name2: Seq<char>,
    reading1: (Option<Choice>, bool, Option<Seq<char>>),
    reading2: (Option<Choice>, bool, Option<Seq<char>>),
    response1: MoveResponse,
    response2: MoveResponse,
    time: u64,
) -> bool {
    let n = g.stats.turns@.len();
    &&& s.config == g.config
    &&& s.state == g.state
    &&& s.game_id == g.game_id
    &&& s.stats.turns@.len() == n + 2
    &&& s.stats.turns@.subrange(0, n as int) == g.stats.turns@
    &&& s.stats.winner == g.stats.winner
    &&& s.stats.draw == g.stats.draw
    &&& s.stats.total_duration_ms == g.stats.total_duration_ms
    &&& records_answer(g, s.stats.turns@[n as int], 2 * g.state.round - 1, name1, reading1, response1, time)
    &&& records_answer(g, s.stats.turns@[n + 1int], 2 * g.state.round, name2, reading2, response2, time)
    &&& rr.round_number == g.state.round
    &&& rr.player_one_choice == reading1.0
    &&& rr.player_two_choice == reading2.0
    &&& rr.winner == round_winner(reading1.0, reading2.0)
}

/// The round `rr` is scored: the winner of the round gains a point, the
/// round joins the history, and reaching `rounds_to_win` ends the match in
/// favour of that player (player one is looked at first).
pub open spec fn scores(g: RockPaperScissors, s: RockPaperScissors, rr: RoundResult, name1: Seq<char>, name2: Seq<char>) -> bool {
    let one = g.state.player_one_score + if rr.winner == Some(0usize) { 1int } else { 0int };
    let two = g.state.player_two_score + if rr.winner == Some(1usize) { 1int } else { 0int };
    &&& s.config == g.config
    &&& s.game_id == g.game_id
    &&& s.stats.turns == g.stats.turns
    &&& s.stats.invalid_moves == g.stats.invalid_moves
    &&& s.stats.draw == g.stats.draw
    &&& s.stats.total_duration_ms == g.stats.total_duration_ms
    &&& s.state.round == g.state.round
    &&& s.state.player_one_score == one
    &&& s.state.player_two_score == two
    &&& s.state.round_history@ == g.state.round_history@.push(rr)
    &&& if one >= g.rounds_to_win() {
        &&& s.state.game_over
        &&& s.stats.winner matches Some(w) && w@ == winner_name(name1, "Player 1"@)
    } else if two >= g.rounds_to_win() {
        &&& s.state.game_over
        &&& s.stats.winner matches Some(w) && w@ == winner_name(name2, "Player 2"@)
    } else {
        &&& s.state.game_over == g.state.game_over
        &&& s.stats.winner == g.stats.winner
    }
}

impl RockPaperScissors {
    /// Wins that take the match: a majority of the configured rounds.
    pub open spec fn rounds_to_win(&self) -> int {
        self.config.rounds / 2 + 1
    }

    /// The match is over, or every round has been played.
    pub open spec fn finished(&self) -> bool {
        self.state.game_over || self.state.round >= self.config.rounds
    }

    /// Turn numbers fit, and scores agree with the rounds played.
    pub open spec fn wf_core(&self) -> bool {
        &&& self.config.rounds <= u32::MAX / 2
        &&& self.state.round <= self.config.rounds
        &&& self.state.player_one_score + self.state.player_two_score <= self.state.round_history@.len()
        &&& self.state.round_history@.len() <= self.state.round
        &&& self.stats.wf()
    }

    /// Turn numbers fit, and scores and records agree with the rounds played.
    pub open spec fn wf(&self) -> bool {
        &&& self.wf_core()
        &&& self.stats.turns@.len() <= 2 * self.state.round_history@.len()
    }

    /// A round has been started and not yet settled.
    pub open spec fn round_open(&self) -> bool {
        self.state.round_history@.len() < self.state.round
    }

    /// `snap` is a copy of this match.
    pub open spec fn pictured(&self, snap: GameSnapshot) -> bool {
        match snap {
            GameSnapshot::RockPaperScissors { state, config } => {
                &&& state.round == self.state.round
                &&& state.player_one_score == self.state.player_one_score
                &&& state.player_two_score == self.state.player_two_score
                &&& state.round_history@ == self.state.round_history@
                &&& state.game_over == self.state.game_over
                &&& config == self.config
            },
            _ => false,
        }
    }

    /// A new match with no round played.
    pub fn new(config: RockPaperScissorsConfig) -> (r: Self)
        requires
            config.rounds <= u32::MAX / 2,
        ensures
            r.wf(),
            r.config == config,
            r.state.round == 0,
            r.state.player_one_score == 0,
            r.state.player_two_score == 0,
            r.state.round_history@.len() == 0,
            !r.state.game_over,
            r.stats.turns@.len() == 0,
            r.stats.winner is None,
            !r.stats.draw,
            r.game_id@.subrange(0, 4) == "rps_"@,
            r.game_id@.len() == 12,
    {
        proof {
            reveal_strlit("rps_");
        }
        RockPaperScissors {
            config,
            state: RockPaperScissorsState {
                round: 0,
                player_one_score: 0,
                player_two_score: 0,
                round_history: Vec::new(),
                game_over: false,
            },
            stats: GameStats::new(),
            game_id: new_game_id("rps_"),
        }
    }

    /// A copy of the match as it stands.
    pub fn snapshot(&self) -> (s: GameSnapshot)
        ensures
            self.pictured(s),
    {
        let mut history: Vec<RoundResult> = Vec::new();
        let mut i: usize = 0;
        while i < self.state.round_history.len()
            invariant
                i <= self.state.round_history@.len(),
                history@ == self.state.round_history@.subrange(0, i as int),
            decreases self.state.round_history@.len() - i,
        {
            history.push(self.state.round_history[i]);
            i = i + 1;
        }
        assert(history@ == self.state.round_history@);
        GameSnapshot::RockPaperScissors {
            state: RockPaperScissorsState {
                round: self.state.round,
                player_one_score: self.state.player_one_score,
                player_two_score: self.state.player_two_score,
                round_history: history,
                game_over: self.state.game_over,
            },
            config: self.config,
        }
    }

    /// Reads the hand of an answer: an error when it has no `choice` text;
    /// none when the text names no hand; the hand otherwise, read without
    /// regard to case.
    pub fn parse_choice(&self, move_data: &serde_json::Value, player_name: &str) -> (r: Result<Option<Choice>, String>)
        ensures
            str_field(*move_data, "choice"@) is None ==> (r matches Err(m) && m@ == missing_choice_message(
                player_name@,
            )),
            str_field(*move_data, "choice"@) matches Some(t) ==> r == Ok::<Option<Choice>, String>(
                choice_named(lower_of(t)),
            ),
    {
        match read_str_field(move_data, "choice") {
            Some(t) => Ok(choice_from_text(t)),
            None => Err(String::from_str(player_name).concat(": Missing or invalid 'choice' field")),
        }
    }

    /// Whether the match is over: it was won, or every round was played.
    pub fn is_finished(&self) -> (r: bool)
        ensures
            r == self.finished(),
    {
        self.state.game_over || self.state.round >= self.config.rounds
    }

    /// Opens the next round: counts it and builds the request that both
    /// agents receive.
    pub fn start_round(&mut self) -> (req: MoveRequest)
        requires
            old(self).wf(),
            !old(self).finished(),
        ensures
            final(self).wf(),
            final(self).round_open(),
            final(self).state.round == old(self).state.round + 1,
            final(self).state.player_one_score == old(self).state.player_one_score,
            final(self).state.player_two_score == old(self).state.player_two_score,
            final(self).state.round_history == old(self).state.round_history,
            final(self).state.game_over == old(self).state.game_over,
            final(self).config == old(self).config,
            final(self).stats == old(self).stats,
            final(self).game_id == old(self).game_id,
            req.turn_index == final(self).state.round,
            req.game_id@ == final(self).game_id@,
            final(self).pictured(req.state),
            req.expected_move_schema == MoveSchema::Choice,
    {
        self.state.round = self.state.round + 1;
        let state = self.snapshot();
        MoveRequest {
            turn_index: self.state.round,
            game_id: self.game_id.clone(),
            state,
            expected_move_schema: MoveSchema::Choice,
        }
    }

    /// Whether the second agent is asked after the first answered: only when
    /// the first call succeeded.
    pub fn needs_second_move(first: &Result<MoveResponse, AgentError>) -> (r: bool)
        ensures
            r == first is Ok,
    {
        first.is_ok()
    }

    /// Records both answers of the open round and says who took it.
    pub fn settle_round(
        &mut self,
        name1: &str,
        name2: &str,
        parsed1: Result<Option<Choice>, String>,
        parsed2: Result<Option<Choice>, String>,
        response1: MoveResponse,
        response2: MoveResponse,
        time_taken_ms: u64,
    ) -> (rr: RoundResult)
        requires
            old(self).wf(),
            old(self).round_open(),
        ensures
            settles(
                *old(self),
                *final(self),
                rr,
                name1@,
                name2@,
                parse_reading(parsed1),
                parse_reading(parsed2),
                response1,
                response2,
                time_taken_ms,
            ),
            final(self).wf_core(),
            final(self).round_open(),
            final(self).stats.turns@.len() <= 2 * final(self).state.round_history@.len() + 2,
    {
        let ghost o = *self;
        let round = self.state.round;
        let c1 = match &parsed1 {
            Ok(c) => *c,
            Err(_) => None,
        };
        let c2 = match &parsed2 {
            Ok(c) => *c,
            Err(_) => None,
        };
        let winner = match (c1, c2) {
            (Some(a), Some(b)) => if a.beats(b) {
                Some(0usize)
            } else if b.beats(a) {
                Some(1usize)
            } else {
                None
            },
            _ => None,
        };
        let (valid1, error1) = match parsed1 {
            Ok(Some(_)) => (true, None),
            Ok(None) => (false, Some(String::from_str("Invalid choice"))),
            Err(e) => (false, Some(e)),
        };
        let (valid2, error2) = match parsed2 {
            Ok(Some(_)) => (true, None),
            Ok(None) => (false, Some(String::from_str("Invalid choice"))),
            Err(e) => (false, Some(e)),
        };
        let turn1 = TurnStats {
            turn_number: round * 2 - 1,
            player: String::from_str(name1),
            move_made: response1.chosen_move,
            time_taken_ms,
            move_valid: valid1,
            error_message: error1,
            state_before: self.snapshot(),
            state_after: self.snapshot(),
            diagnostics: response1.diagnostics,
        };
        let ghost t1 = turn1;
        assert(records_answer(o, t1, 2 * round - 1, name1@, parse_reading(parsed1), response1, time_taken_ms));
        proof {
            lemma_rounds_bound(o);
        }
        self.stats.add_turn(turn1);
        let turn2 = TurnStats {
            turn_number: round * 2,
            player: String::from_str(name2),
            move_made: response2.chosen_move,
            time_taken_ms,
            move_valid: valid2,
            error_message: error2,
            state_before: self.snapshot(),
            state_after: self.snapshot(),
            diagnostics: response2.diagnostics,
        };
        let ghost t2 = turn2;
        assert(records_answer(o, t2, 2 * round, name2@, parse_reading(parsed2), response2, time_taken_ms));
        self.stats.add_turn(turn2);
        let ghost n = o.stats.turns@.len();
        assert(self.stats.turns@.subrange(0, n as int) =~= o.stats.turns@);
        assert(self.stats.turns@[n as int] == t1);
        RoundResult { round_number: round, player_one_choice: c1, player_two_choice: c2, winner }
    }
}

/// Records stay below `u32::MAX`, leaving room for two more.
proof fn lemma_rounds_bound(g: RockPaperScissors)
    requires
        g.wf(),
        g.round_open(),
    ensures
        g.stats.turns@.len() + 2 <= 2 * g.state.round,
        2 * g.state.round <= u32::MAX,
{
}

impl RockPaperScissors {
    /// Takes the answers to the open round. A failed call of the first agent
    /// (whose failure means the second is not asked) or of the second is
    /// answered with its message and leaves the match as it was; otherwise
    /// both answers are read and the round is settled.
    pub fn execute_round(
        &mut self,
        name1: &str,
        name2: &str,
        first: Result<MoveResponse, AgentError>,
        second: Option<Result<MoveResponse, AgentError>>,
        time_taken_ms: u64,
    ) -> (r: Result<RoundResult, String>)
        requires
            old(self).wf(),
            old(self).round_open(),
            first is Ok ==> second is Some,
        ensures
            r is Err ==> *final(self) == *old(self),
            r is Ok ==> {
                &&& final(self).wf_core()
                &&& final(self).round_open()
                &&& final(self).stats.turns@.len() <= 2 * final(self).state.round_history@.len() + 2
            },
            first matches Err(e) ==> r matches Err(m) && m@ == seat_error_message("Player 1"@, e),
            second matches Some(Err(e)) ==> (first is Ok ==> (r matches Err(m) && m@ == seat_error_message("Player 2"@, e))),
            first matches Ok(r1) ==> (second matches Some(Ok(r2)) ==> (r matches Ok(rr) && settles(
                *old(self),
                *final(self),
                rr,
                name1@,
                name2@,
                answer_reading(r1.chosen_move, "Player 1"@),
                answer_reading(r2.chosen_move, "Player 2"@),
                r1,
                r2,
                time_taken_ms,
            ))),
    {
        let response1 = match first {
            Err(e) => {
                proof {
                    reveal_strlit("Player 1");
                }
                return Err(seat_error_text("Player 1", &e));
            },
            Ok(resp) => resp,
        };
        let response2 = match second {
            Some(Ok(resp)) => resp,
            Some(Err(e)) => {
                return Err(seat_error_text("Player 2", &e));
            },
            None => {
                return Err(String::from_str("Player 2 error: not asked"));
            },
        };
        let parsed1 = self.parse_choice(&response1.chosen_move, "Player 1");
        let parsed2 = self.parse_choice(&response2.chosen_move, "Player 2");
        assert(parse_reading(parsed1) == answer_reading(response1.chosen_move, "Player 1"@));
        assert(parse_reading(parsed2) == answer_reading(response2.chosen_move, "Player 2"@));
        let rr = self.settle_round(name1, name2, parsed1, parsed2, response1, response2, time_taken_ms);
        Ok(rr)
    }

    /// Scores a settled round and ends the match when a player reaches
    /// `rounds_to_win`.
    pub fn score_round(&mut self, name1: &str, name2: &str, rr: RoundResult)
        requires
            old(self).wf_core(),
            old(self).round_open(),
            old(self).stats.turns@.len() <= 2 * old(self).state.round_history@.len() + 2,
            rr.winner is None || rr.winner == Some(0usize) || rr.winner == Some(1usize),
        ensures
            final(self).wf(),
            scores(*old(self), *final(self), rr, name1@, name2@),
    {
        let ghost o = *self;
        match rr.winner {
            Some(0) => {
                self.state.player_one_score = self.state.player_one_score + 1;
            },
            Some(1) => {
                self.state.player_two_score = self.state.player_two_score + 1;
            },
            _ => {},
        }
        self.state.round_history.push(rr);
        let rounds_to_win = self.config.rounds / 2 + 1;
        if self.state.player_one_score >= rounds_to_win {
            self.state.game_over = true;
            self.stats.winner = Some(winner_text(name1, "Player 1"));
        } else if self.state.player_two_score >= rounds_to_win {
            self.state.game_over = true;
            self.stats.winner = Some(winner_text(name2, "Player 2"));
        }
    }

    /// Plays the open round from the agents' answers: a round whose answers
    /// could not be had counts as a tie with nothing recorded (its message is
    /// handed back); otherwise it is settled. Either way it is then scored.
    pub fn play_round(
        &mut self,
        name1: &str,
        name2: &str,
        first: Result<MoveResponse, AgentError>,
        second: Option<Result<MoveResponse, AgentError>>,
        time_taken_ms: u64,
    ) -> (r: Result<(), String>)
        requires
            old(self).wf(),
            old(self).round_open(),
            first is Ok ==> second is Some,
        ensures
            final(self).wf(),
            r is Err ==> scores(
                *old(self),
                *final(self),
                RoundResult {
                    round_number: old(self).state.round,
                    player_one_choice: None,
                    player_two_choice: None,
                    winner: None,
                },
                name1@,
                name2@,
            ),
            first matches Err(e) ==> r matches Err(m) && m@ == seat_error_message("Player 1"@, e),
            second matches Some(Err(e)) ==> (first is Ok ==> (r matches Err(m) && m@ == seat_error_message("Player 2"@, e))),
            first matches Ok(r1) ==> (second matches Some(Ok(r2)) ==> (r is Ok && exists|
                mid: RockPaperScissors,
                rr: RoundResult,
            |
                {
                    &&& settles(
                        *old(self),
                        mid,
                        rr,
                        name1@,
                        name2@,
                        answer_reading(r1.chosen_move, "Player 1"@),
                        answer_reading(r2.chosen_move, "Player 2"@),
                        r1,
                        r2,
                        time_taken_ms,
                    )
                    &&& scores(mid, *final(self), rr, name1@, name2@)
                })),
    {
        let outcome = self.execute_round(name1, name2, first, second, time_taken_ms);
        let ghost mid = *self;
        match outcome {
            Ok(rr) => {
                self.score_round(name1, name2, rr);
                assert(scores(mid, *self, rr, name1@, name2@));
                Ok(())
            },
            Err(e) => {
                let tie = RoundResult {
                    round_number: self.state.round,
                    player_one_choice: None,
                    player_two_choice: None,
                    winner: None,
                };
                self.score_round(name1, name2, tie);
                Err(e)
            },
        }
    }

    /// Ends the match after `total_duration_ms`. A match that ran out of
    /// rounds goes to the higher score, or is drawn on equal scores.
    pub fn finish(self, name1: &str, name2: &str, total_duration_ms: u64) -> (r: RockPaperScissorsResult)
        ensures
            r.error is None,
            r.stats.turns == self.stats.turns,
            r.stats.invalid_moves == self.stats.invalid_moves,
            r.stats.total_duration_ms == total_duration_ms,
            r.winner == r.stats.winner,
            self.state.game_over ==> r.stats.winner == self.stats.winner && r.stats.draw == self.stats.draw,
            !self.state.game_over && self.state.player_one_score > self.state.player_two_score ==> (r.winner matches Some(
                w,
            ) && w@ == winner_name(name1@, "Player 1"@)) && r.stats.draw == self.stats.draw,
            !self.state.game_over && self.state.player_two_score > self.state.player_one_score ==> (r.winner matches Some(
                w,
            ) && w@ == winner_name(name2@, "Player 2"@)) && r.stats.draw == self.stats.draw,
            !self.state.game_over && self.state.player_one_score == self.state.player_two_score ==> r.stats.draw
                && r.stats.winner == self.stats.winner,
    {
        let mut stats = self.stats;
        if !self.state.game_over {
            if self.state.player_one_score > self.state.player_two_score {
                stats.winner = Some(winner_text(name1, "Player 1"));
            } else if self.state.player_two_score > self.state.player_one_score {
                stats.winner = Some(winner_text(name2, "Player 2"));
            } else {
                stats.draw = true;
            }
        }
        stats.total_duration_ms = total_duration_ms;
        let winner = match &stats.winner {
            Some(w) => Some(w.clone()),
            None => None,
        };
        RockPaperScissorsResult { winner, stats, error: None }
    }

    /// Ends the match before any round with the error `error`.
    pub fn fail(self, error: String) -> (r: RockPaperScissorsResult)
        ensures
            r.winner is None,
            r.error == Some(error),
            r.stats == self.stats,
    {
        RockPaperScissorsResult { winner: None, stats: self.stats, error: Some(error) }
    }
}

} // verus!
