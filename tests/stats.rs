use ai_arena::games::rock_paper_scissors::{RockPaperScissors, RockPaperScissorsConfig};
use ai_arena::games::stats::{GameSnapshot, GameStats, TurnStats};

fn snapshot() -> GameSnapshot {
    RockPaperScissors::new(RockPaperScissorsConfig::default()).snapshot()
}

fn turn(turn_number: u32, player: &str, time_taken_ms: u64, move_valid: bool, error: Option<&str>) -> TurnStats {
    TurnStats {
        turn_number,
        player: player.to_string(),
        move_made: serde_json::Value::Null,
        time_taken_ms,
        move_valid,
        error_message: error.map(|e| e.to_string()),
        state_before: snapshot(),
        state_after: snapshot(),
        diagnostics: None,
    }
}

#[test]
fn test_game_stats_new() {
    let stats = GameStats::new();
    assert_eq!(stats.turns.len(), 0);
    assert_eq!(stats.total_duration_ms, 0);
    assert_eq!(stats.invalid_moves, 0);
    assert_eq!(stats.winner, None);
    assert_eq!(stats.draw, false);
}

#[test]
fn test_game_stats_default() {
    let stats = GameStats::default();
    assert_eq!(stats.turns.len(), 0);
    assert_eq!(stats.total_duration_ms, 0);
    assert_eq!(stats.invalid_moves, 0);
}

#[test]
fn test_add_valid_turn() {
    let mut stats = GameStats::new();
    stats.add_turn(turn(1, "Player1", 100, true, None));
    assert_eq!(stats.turns.len(), 1);
    assert_eq!(stats.invalid_moves, 0);
}

#[test]
fn test_add_invalid_turn() {
    let mut stats = GameStats::new();
    stats.add_turn(turn(1, "Player1", 50, false, Some("Invalid move")));
    assert_eq!(stats.turns.len(), 1);
    assert_eq!(stats.invalid_moves, 1);
}

#[test]
fn test_add_multiple_turns() {
    let mut stats = GameStats::new();
    for i in 0..5u32 {
        let player = format!("Player{}", i % 2 + 1);
        let error = if i % 2 == 0 { None } else { Some("Invalid") };
        stats.add_turn(turn(i, &player, ((i + 1) * 10) as u64, i % 2 == 0, error));
    }
    assert_eq!(stats.turns.len(), 5);
    assert_eq!(stats.invalid_moves, 2);
}

#[test]
fn test_average_turn_time_empty() {
    let stats = GameStats::new();
    assert_eq!(stats.average_turn_time_ms(), 0);
}

#[test]
fn test_average_turn_time_single() {
    let mut stats = GameStats::new();
    stats.add_turn(turn(1, "Player1", 100, true, None));
    assert_eq!(stats.average_turn_time_ms(), 100);
}

#[test]
fn test_average_turn_time_multiple() {
    let mut stats = GameStats::new();
    for i in 1..=5u32 {
        stats.add_turn(turn(i, "Player1", (i * 10) as u64, true, None));
    }
    assert_eq!(stats.average_turn_time_ms(), 30);
}

#[test]
fn test_total_turns() {
    let mut stats = GameStats::new();
    assert_eq!(stats.total_turns(), 0);
    for i in 0..3u32 {
        stats.add_turn(turn(i, "Player1", 100, true, None));
    }
    assert_eq!(stats.total_turns(), 3);
}

#[test]
fn average_turn_time_rounds_down() {
    let mut stats = GameStats::new();
    stats.add_turn(turn(1, "Player1", 10, true, None));
    stats.add_turn(turn(2, "Player2", 15, true, None));
    assert_eq!(stats.total_turn_time_ms(), 25);
    assert_eq!(stats.average_turn_time_ms(), 12);
}

#[test]
fn invalid_count_follows_records() {
    let mut stats = GameStats::new();
    let pattern = [false, false, true, false, true, true, false];
    for (i, valid) in pattern.iter().enumerate() {
        stats.add_turn(turn(i as u32, "P", 1, *valid, None));
        let refused = stats.turns.iter().filter(|t| !t.move_valid).count();
        assert_eq!(stats.invalid_moves as usize, refused);
    }
    assert_eq!(stats.invalid_moves, 4);
}
