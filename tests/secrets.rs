use ai_arena::secrets::{names_are_unique, AnthropicSecret, OllamaSecret, OpenAISecret, SecretsError, SecretsManager};

fn manager() -> SecretsManager {
    SecretsManager::with_profiles(
        "/tmp/secrets.toml".to_string(),
        vec![
            ("work".to_string(), OpenAISecret { api_key: "sk-work".to_string() }),
            ("default".to_string(), OpenAISecret { api_key: "sk-default".to_string() }),
        ],
        vec![("default".to_string(), AnthropicSecret { api_key: "ak-default".to_string() })],
        vec![("lab".to_string(), OllamaSecret { base_url: "http://lab:11434".to_string() })],
    )
}

#[test]
fn profile_lookup() {
    let m = manager();
    assert_eq!(m.get_openai("work").unwrap().api_key, "sk-work");
    assert_eq!(m.get_ollama("lab").unwrap().base_url, "http://lab:11434");
    match m.get_anthropic("work") {
        Err(SecretsError::SecretNotFound(msg)) => assert_eq!(msg, "Anthropic profile 'work' not found"),
        other => panic!("unexpected {:?}", other),
    }
    assert_eq!(m.config_path(), "/tmp/secrets.toml");
}

#[test]
fn openai_resolution_order() {
    let m = manager();
    assert_eq!(m.resolve_openai_key(Some("work"), Some("sk-env".to_string())).unwrap(), "sk-work");
    assert_eq!(m.resolve_openai_key(Some("missing"), Some("sk-env".to_string())).unwrap(), "sk-env");
    assert_eq!(m.resolve_openai_key(None, None).unwrap(), "sk-default");
    let empty = SecretsManager::empty("/nowhere".to_string());
    match empty.resolve_openai_key(None, None) {
        Err(e) => assert_eq!(
            e.to_string(),
            "Secret not found: OpenAI API key not found. Set OPENAI_API_KEY environment variable or configure a secret profile."
        ),
        Ok(k) => panic!("unexpected key {}", k),
    }
}

#[test]
fn anthropic_resolution_order() {
    let m = manager();
    assert_eq!(m.resolve_anthropic_key(None, Some("ak-env".to_string())).unwrap(), "ak-env");
    assert_eq!(m.resolve_anthropic_key(Some("nope"), None).unwrap(), "ak-default");
    assert!(SecretsManager::empty(String::new()).resolve_anthropic_key(None, None).is_err());
}

#[test]
fn ollama_falls_back_to_local_server() {
    let m = manager();
    assert_eq!(m.resolve_ollama_base_url(Some("lab"), None).unwrap(), "http://lab:11434");
    assert_eq!(m.resolve_ollama_base_url(None, Some("http://env:1".to_string())).unwrap(), "http://env:1");
    assert_eq!(m.resolve_ollama_base_url(None, None).unwrap(), "http://localhost:11434");
}

#[test]
fn secrets_error_messages() {
    assert_eq!(SecretsError::FileNotFound("x".to_string()).to_string(), "Secrets file not found: x");
    assert_eq!(SecretsError::InvalidFormat("y".to_string()).to_string(), "Invalid secrets file format: y");
    assert_eq!(SecretsError::PermissionError("z".to_string()).to_string(), "Permission error: z");
    assert_eq!(SecretsError::IoError("w".to_string()).to_string(), "IO error: w");
}

#[test]
fn profile_names_must_be_unique() {
    let twice = vec![
        ("a".to_string(), OllamaSecret { base_url: "u".to_string() }),
        ("b".to_string(), OllamaSecret { base_url: "v".to_string() }),
        ("a".to_string(), OllamaSecret { base_url: "w".to_string() }),
    ];
    assert!(!names_are_unique(&twice));
    assert!(names_are_unique(&twice[..2].to_vec()));
    let none: Vec<(String, OllamaSecret)> = Vec::new();
    assert!(names_are_unique(&none));
}
