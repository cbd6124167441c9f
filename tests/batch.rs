use ai_arena::batch::{
    eq_ignore_ascii_case, field_index, number_or, optional_field, parse_agent_kind, parse_unsigned, required_field, AgentKind,
};

fn row(items: &[&str]) -> Vec<String> {
    items.iter().map(|s| s.to_string()).collect()
}

fn headers() -> Vec<String> {
    row(&[
        "game_name",
        "agent_one_kind",
        "agent_one_model",
        "agent_one_temp",
        "agent_one_seed",
        "agent_one_secret_profile",
        "agent_two_kind",
        "agent_two_model",
        "agent_two_temp",
        "agent_two_seed",
        "agent_two_secret_profile",
        "repetitions",
        "description",
    ])
}

#[test]
fn agent_kind_ignores_case() {
    assert_eq!(parse_agent_kind("OpenAI"), Ok(AgentKind::OpenAI));
    assert_eq!(parse_agent_kind("openai"), Ok(AgentKind::OpenAI));
    assert_eq!(parse_agent_kind("OLLAMA"), Ok(AgentKind::Ollama));
    assert_eq!(parse_agent_kind("anthropic"), Ok(AgentKind::Anthropic));
}

#[test]
fn unknown_agent_kind_is_refused() {
    let err = parse_agent_kind("InvalidAgent").unwrap_err();
    assert!(err.contains("Invalid agent kind"));
    assert_eq!(err, "Invalid agent kind: InvalidAgent. Must be OpenAI, Anthropic, or Ollama");
}

#[test]
fn required_fields_of_a_minimal_row() {
    let h = headers();
    let r = row(&["TicTacToe", "OpenAI", "gpt-4o-mini", "", "", "", "Ollama", "llama3", "", "", "", "", "Test game"]);
    assert_eq!(required_field(&h, &r, "game_name"), Ok("TicTacToe".to_string()));
    assert_eq!(required_field(&h, &r, "agent_two_model"), Ok("llama3".to_string()));
    assert_eq!(required_field(&h, &r, "agent_one_temp"), Ok(String::new()));
    assert_eq!(required_field(&h, &r, "description"), Ok("Test game".to_string()));
    assert_eq!(optional_field(&h, &r, "agent_one_secret_profile"), None);
}

#[test]
fn optional_fields_of_a_full_row() {
    let h = headers();
    let r = row(&[
        "ConnectFour", "Anthropic", "model-a", "0.5", "42", "profile1", "OpenAI", "gpt-4o-mini", "0.9", "43", "profile2", "3",
        "Full test",
    ]);
    assert_eq!(optional_field(&h, &r, "agent_one_secret_profile"), Some("profile1".to_string()));
    assert_eq!(optional_field(&h, &r, "agent_two_secret_profile"), Some("profile2".to_string()));
    assert_eq!(required_field(&h, &r, "repetitions"), Ok("3".to_string()));
}

#[test]
fn missing_column_is_an_error() {
    let h = row(&["game_name", "agent_one_kind"]);
    let r = row(&["TicTacToe", "OpenAI"]);
    let err = required_field(&h, &r, "agent_one_model").unwrap_err();
    assert!(err.contains("Missing required field"));
    assert_eq!(err, "Missing required field: agent_one_model");
    assert_eq!(optional_field(&h, &r, "agent_one_model"), None);
}

#[test]
fn headers_match_regardless_of_ascii_case() {
    let h = row(&["Game_Name", "GAME_NAME", "description"]);
    assert_eq!(field_index(&h, "game_name"), Some(0));
    assert_eq!(field_index(&h, "DESCRIPTION"), Some(2));
    assert_eq!(field_index(&h, "repetitions"), None);
    let short = row(&["x"]);
    assert_eq!(required_field(&h, &short, "description"), Ok(String::new()));
}

#[test]
fn ascii_case_folding() {
    assert!(eq_ignore_ascii_case("Hello", "hELLO"));
    assert!(!eq_ignore_ascii_case("Hello", "Hell"));
    assert!(!eq_ignore_ascii_case("É", "é"));
    assert!(eq_ignore_ascii_case("", ""));
}

#[test]
fn unsigned_numbers_read_as_integer_parsing_does() {
    assert_eq!(parse_unsigned("42", u64::MAX), Some(42));
    assert_eq!(parse_unsigned("+7", u64::MAX), Some(7));
    assert_eq!(parse_unsigned("007", u64::MAX), Some(7));
    assert_eq!(parse_unsigned("18446744073709551615", u64::MAX), Some(u64::MAX));
    assert_eq!(parse_unsigned("18446744073709551616", u64::MAX), None);
    assert_eq!(parse_unsigned("4294967296", u32::MAX as u64), None);
    assert_eq!(parse_unsigned("", u64::MAX), None);
    assert_eq!(parse_unsigned("+", u64::MAX), None);
    assert_eq!(parse_unsigned("-1", u64::MAX), None);
    assert_eq!(parse_unsigned("1 ", u64::MAX), None);
    for text in ["0", "12", "+3", "99999999999999999999", "x1", "1.5"] {
        assert_eq!(parse_unsigned(text, u64::MAX), text.parse::<u64>().ok());
    }
}

#[test]
fn numbers_fall_back_to_defaults() {
    let h = headers();
    let r = row(&["TicTacToe", "OpenAI", "m", "", "42", "", "Ollama", "l", "", "x", "", "", "d"]);
    assert_eq!(number_or(&h, &r, "agent_one_seed", u64::MAX, 0), 42);
    assert_eq!(number_or(&h, &r, "agent_two_seed", u64::MAX, 0), 0);
    assert_eq!(number_or(&h, &r, "repetitions", u32::MAX as u64, 1), 1);
    assert_eq!(number_or(&h, &r, "missing", u64::MAX, 9), 9);
}
