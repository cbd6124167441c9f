//! Credentials of the agent backends, by named profile.
//!
//! Reading the secrets file and the environment happens outside the library:
//! it hands over the parsed profiles and the value of the environment
//! variable that is consulted.

use vstd::prelude::*;
use crate::text::same_text;

verus! {

/// An OpenAI credential.
#[derive(Clone, Debug)]
pub struct OpenAISecret {
    pub api_key: String,
}

/// An Anthropic credential.
#[derive(Clone, Debug)]
pub struct AnthropicSecret {
    pub api_key: String,
}

/// Where an Ollama server answers.
#[derive(Clone, Debug)]
pub struct OllamaSecret {
    pub base_url: String,
}

/// Why a credential could not be had.
#[derive(Clone, Debug)]
pub enum SecretsError {
    FileNotFound(String),
    InvalidFormat(String),
    PermissionError(String),
    SecretNotFound(String),
    IoError(String),
}

impl SecretsError {
    /// The human-readable message of the error.
    pub open spec fn message(&self) -> Seq<char> {
        match self {
            SecretsError::FileNotFound(path) => "Secrets file not found: "@ + path@,
            SecretsError::InvalidFormat(msg) => "Invalid secrets file format: "@ + msg@,
            SecretsError::PermissionError(msg) => "Permission error: "@ + msg@,
            SecretsError::SecretNotFound(msg) => "Secret not found: "@ + msg@,
            SecretsError::IoError(msg) => "IO error: "@ + msg@,
        }
    }

    /// Renders the error as text.
    pub fn to_string(&self) -> (r: String)
        ensures
            r@ == self.message(),
    {
        match self {
            SecretsError::FileNotFound(path) => String::from_str("Secrets file not found: ").concat(path.as_str()),
            SecretsError::InvalidFormat(msg) => String::from_str("Invalid secrets file format: ").concat(msg.as_str()),
            SecretsError::PermissionError(msg) => String::from_str("Permission error: ").concat(msg.as_str()),
            SecretsError::SecretNotFound(msg) => String::from_str("Secret not found: ").concat(msg.as_str()),
            SecretsError::IoError(msg) => String::from_str("IO error: ").concat(msg.as_str()),
        }
    }
}

/// The first profile of that name, if any.
pub open spec fn profile_in<T>(entries: Seq<(String, T)>, name: Seq<char>) -> Option<T>
    decreases entries.len(),
{
    if entries.len() == 0 {
        None
    } else if entries[0].0@ == name {
        Some(entries[0].1)
    } else {
        profile_in(entries.drop_first(), name)
    }
}

/// No two profiles share a name.
pub open spec fn names_unique<T>(entries: Seq<(String, T)>) -> bool {
    forall|i: int, j: int| 0 <= i < j < entries.len() ==> #[trigger] entries[i].0@ != #[trigger] entries[j].0@
}

/// With unique names, the profile of a name is the one entry that bears it.
pub proof fn lemma_unique_profile<T>(entries: Seq<(String, T)>, i: int)
    requires
        names_unique(entries),
        0 <= i < entries.len(),
    ensures
        profile_in(entries, entries[i].0@) == Some(entries[i].1),
    decreases i,
{
    if i > 0 {
        let rest = entries.drop_first();
        assert(names_unique(rest)) by {
            assert forall|a: int, b: int| 0 <= a < b < rest.len() implies #[trigger] rest[a].0@ != #[trigger] rest[b].0@ by {
                assert(entries[a + 1].0@ != entries[b + 1].0@);
            }
        }
        assert(entries[0].0@ != entries[i].0@);
        assert(rest[i - 1] == entries[i]);
        lemma_unique_profile(rest, i - 1);
    }
}

/// Whether no two profiles share a name.
pub fn names_are_unique<T>(entries: &Vec<(String, T)>) -> (r: bool)
    ensures
        r == names_unique(entries@),
{
    let mut i: usize = 0;
    while i < entries.len()
        invariant
            i <= entries@.len(),
            forall|a: int, b: int| 0 <= a < i && a < b < entries@.len() ==> #[trigger] entries@[a].0@ != #[trigger] entries@[b].0@,
        decreases entries@.len() - i,
    {
        let mut j: usize = i + 1;
        while j < entries.len()
            invariant
                i < entries@.len(),
                i + 1 <= j <= entries@.len(),
                forall|a: int, b: int| 0 <= a < i && a < b < entries@.len() ==> #[trigger] entries@[a].0@ != #[trigger] entries@[b].0@,
                forall|b: int| i < b < j ==> entries@[i as int].0@ != #[trigger] entries@[b].0@,
            decreases entries@.len() - j,
        {
            if same_text(entries[i].0.as_str(), entries[j].0.as_str()) {
                return false;
            }
            j = j + 1;
        }
        i = i + 1;
    }
    true
}

/// Where the first profile of that name stands, if any.
fn find_profile<T>(entries: &Vec<(String, T)>, name: &str) -> (r: Option<usize>)
    ensures
        r matches Some(i) ==> i < entries@.len() && profile_in(entries@, name@) == Some(entries@[i as int].1),
        r is None ==> profile_in(entries@, name@) is None,
{
    let mut i: usize = 0;
    assert(entries@.subrange(0, entries@.len() as int) =~= entries@);
    while i < entries.len()
        invariant
            i <= entries@.len(),
            profile_in(entries@, name@) == profile_in(entries@.subrange(i as int, entries@.len() as int), name@),
        decreases entries@.len() - i,
    {
        let ghost rest = entries@.subrange(i as int, entries@.len() as int);
        assert(rest.drop_first() =~= entries@.subrange(i + 1, entries@.len() as int));
        if same_text(entries[i].0.as_str(), name) {
            return Some(i);
        }
        i = i + 1;
    }
    None
}

/// The profiles of each backend.
#[derive(Clone, Debug)]
struct SecretsSection {
    openai: Vec<(String, OpenAISecret)>,
    anthropic: Vec<(String, AnthropicSecret)>,
    ollama: Vec<(String, OllamaSecret)>,
}

/// The contents of a secrets file.
#[derive(Clone, Debug)]
struct SecretsConfig {
    secrets: SecretsSection,
}

/// The credentials read from a secrets file, and where that file is.
#[derive(Clone, Debug)]
pub struct SecretsManager {
    secrets: SecretsConfig,
    config_path: String,
}

/// The message when no OpenAI key can be found.
pub open spec fn openai_missing() -> Seq<char> {
    "OpenAI API key not found. Set OPENAI_API_KEY environment variable or configure a secret profile."@
}

/// The message when no Anthropic key can be found.
pub open spec fn anthropic_missing() -> Seq<char> {
    "Anthropic API key not found. Set ANTHROPIC_API_KEY environment variable or configure a secret profile."@
}

/// The Ollama server used when nothing else is configured.
pub open spec fn ollama_fallback() -> Seq<char> {
    "http://localhost:11434"@
}

/// The message of a missing profile of a backend.
pub open spec fn profile_missing(backend: Seq<char>, profile: Seq<char>) -> Seq<char> {
    backend + " profile '"@ + profile + "' not found"@
}

fn profile_missing_text(backend: &str, profile: &str) -> (r: String)
    ensures
        r@ == profile_missing(backend@, profile@),
{
    String::from_str(backend).concat(" profile '").concat(profile).concat("' not found")
}

/// The profile named by `profile`, when a name is given and such a profile exists.
pub open spec fn named_profile<T>(entries: Seq<(String, T)>, profile: Option<&str>) -> Option<T> {
    match profile {
        Some(p) => profile_in(entries, p@),
        None => None,
    }
}

impl SecretsManager {
    pub closed spec fn openai_profiles(&self) -> Seq<(String, OpenAISecret)> {
        self.secrets.secrets.openai@
    }

    pub closed spec fn anthropic_profiles(&self) -> Seq<(String, AnthropicSecret)> {
        self.secrets.secrets.anthropic@
    }

    pub closed spec fn ollama_profiles(&self) -> Seq<(String, OllamaSecret)> {
        self.secrets.secrets.ollama@
    }

    /// Each backend's profiles have unique names.
    pub open spec fn wf(&self) -> bool {
        &&& names_unique(self.openai_profiles())
        &&& names_unique(self.anthropic_profiles())
        &&& names_unique(self.ollama_profiles())
    }

    pub closed spec fn path(&self) -> Seq<char> {
        self.config_path@
    }

    /// A manager without profiles, for a secrets file that does not exist.
    pub fn empty(config_path: String) -> (r: Self)
        ensures
            r.wf(),
            r.openai_profiles().len() == 0,
            r.anthropic_profiles().len() == 0,
            r.ollama_profiles().len() == 0,
            r.path() == config_path@,
    {
        SecretsManager {
            secrets: SecretsConfig {
                secrets: SecretsSection { openai: Vec::new(), anthropic: Vec::new(), ollama: Vec::new() },
            },
            config_path,
        }
    }

    /// A manager with the profiles read from the file at `config_path`.
    pub fn with_profiles(
        config_path: String,
        openai: Vec<(String, OpenAISecret)>,
        anthropic: Vec<(String, AnthropicSecret)>,
        ollama: Vec<(String, OllamaSecret)>,
    ) -> (r: Self)
        requires
            names_unique(openai@),
            names_unique(anthropic@),
            names_unique(ollama@),
        ensures
            r.wf(),
            r.openai_profiles() == openai@,
            r.anthropic_profiles() == anthropic@,
            r.ollama_profiles() == ollama@,
            r.path() == config_path@,
    {
        SecretsManager { secrets: SecretsConfig { secrets: SecretsSection { openai, anthropic, ollama } }, config_path }
    }

    /// The OpenAI profile of that name.
    pub fn get_openai(&self, profile: &str) -> (r: Result<&OpenAISecret, SecretsError>)
        ensures
            r matches Ok(s) ==> profile_in(self.openai_profiles(), profile@) == Some(*s),
            r is Err <==> profile_in(self.openai_profiles(), profile@) is None,
            r matches Err(e) ==> e matches SecretsError::SecretNotFound(m) && m@ == profile_missing("OpenAI"@, profile@),
    {
        match find_profile(&self.secrets.secrets.openai, profile) {
            Some(i) => Ok(&self.secrets.secrets.openai[i].1),
            None => Err(SecretsError::SecretNotFound(profile_missing_text("OpenAI", profile))),
        }
    }

    /// The Anthropic profile of that name.
    pub fn get_anthropic(&self, profile: &str) -> (r: Result<&AnthropicSecret, SecretsError>)
        ensures
            r matches Ok(s) ==> profile_in(self.anthropic_profiles(), profile@) == Some(*s),
            r is Err <==> profile_in(self.anthropic_profiles(), profile@) is None,
            r matches Err(e) ==> e matches SecretsError::SecretNotFound(m) && m@ == profile_missing("Anthropic"@, profile@),
    {
        match find_profile(&self.secrets.secrets.anthropic, profile) {
            Some(i) => Ok(&self.secrets.secrets.anthropic[i].1),
            None => Err(SecretsError::SecretNotFound(profile_missing_text("Anthropic", profile))),
        }
    }

    /// The Ollama profile of that name.
    pub fn get_ollama(&self, profile: &str) -> (r: Result<&OllamaSecret, SecretsError>)
        ensures
            r matches Ok(s) ==> profile_in(self.ollama_profiles(), profile@) == Some(*s),
            r is Err <==> profile_in(self.ollama_profiles(), profile@) is None,
            r matches Err(e) ==> e matches SecretsError::SecretNotFound(m) && m@ == profile_missing("Ollama"@, profile@),
    {
        match find_profile(&self.secrets.secrets.ollama, profile) {
            Some(i) => Ok(&self.secrets.secrets.ollama[i].1),
            None => Err(SecretsError::SecretNotFound(profile_missing_text("Ollama", profile))),
        }
    }

    /// The OpenAI key: from the named profile, else the value of
    /// `OPENAI_API_KEY` (`env_key`), else the "default" profile.
    pub fn resolve_openai_key(&self, profile: Option<&str>, env_key: Option<String>) -> (r: Result<String, SecretsError>)
        ensures
            named_profile(self.openai_profiles(), profile) matches Some(s) ==> (r matches Ok(k) && k@ == s.api_key@),
            named_profile(self.openai_profiles(), profile) is None ==> match env_key {
                Some(k) => r == Ok::<String, SecretsError>(k),
                None => match profile_in(self.openai_profiles(), "default"@) {
                    Some(s) => r matches Ok(k) && k@ == s.api_key@,
                    None => r matches Err(SecretsError::SecretNotFound(m)) && m@ == openai_missing(),
                },
            },
    {
        if let Some(name) = profile {
            if let Ok(secret) = self.get_openai(name) {
                return Ok(secret.api_key.clone());
            }
        }
        if let Some(key) = env_key {
            return Ok(key);
        }
        proof {
            reveal_strlit("default");
        }
        if let Ok(secret) = self.get_openai("default") {
            return Ok(secret.api_key.clone());
        }
        Err(SecretsError::SecretNotFound(String::from_str(
            "OpenAI API key not found. Set OPENAI_API_KEY environment variable or configure a secret profile.",
        )))
    }

    /// The Anthropic key: from the named profile, else the value of
    /// `ANTHROPIC_API_KEY` (`env_key`), else the "default" profile.
    pub fn resolve_anthropic_key(&self, profile: Option<&str>, env_key: Option<String>) -> (r: Result<String, SecretsError>)
        ensures
            named_profile(self.anthropic_profiles(), profile) matches Some(s) ==> (r matches Ok(k) && k@ == s.api_key@),
            named_profile(self.anthropic_profiles(), profile) is None ==> match env_key {
                Some(k) => r == Ok::<String, SecretsError>(k),
                None => match profile_in(self.anthropic_profiles(), "default"@) {
                    Some(s) => r matches Ok(k) && k@ == s.api_key@,
                    None => r matches Err(SecretsError::SecretNotFound(m)) && m@ == anthropic_missing(),
                },
            },
    {
        if let Some(name) = profile {
            if let Ok(secret) = self.get_anthropic(name) {
                return Ok(secret.api_key.clone());
            }
        }
        if let Some(key) = env_key {
            return Ok(key);
        }
        proof {
            reveal_strlit("default");
        }
        if let Ok(secret) = self.get_anthropic("default") {
            return Ok(secret.api_key.clone());
        }
        Err(SecretsError::SecretNotFound(String::from_str(
            "Anthropic API key not found. Set ANTHROPIC_API_KEY environment variable or configure a secret profile.",
        )))
    }

    /// The Ollama server: from the named profile, else the value of
    /// `OLLAMA_BASE_URL` (`env_url`), else the "default" profile, else the
    /// local server.
    pub fn resolve_ollama_base_url(&self, profile: Option<&str>, env_url: Option<String>) -> (r: Result<String, SecretsError>)
        ensures
            r is Ok,
            named_profile(self.ollama_profiles(), profile) matches Some(s) ==> (r matches Ok(u) && u@ == s.base_url@),
            named_profile(self.ollama_profiles(), profile) is None ==> match env_url {
                Some(u) => r == Ok::<String, SecretsError>(u),
                None => match profile_in(self.ollama_profiles(), "default"@) {
                    Some(s) => r matches Ok(u) && u@ == s.base_url@,
                    None => r matches Ok(u) && u@ == ollama_fallback(),
                },
            },
    {
        if let Some(name) = profile {
            if let Ok(secret) = self.get_ollama(name) {
                return Ok(secret.base_url.clone());
            }
        }
        if let Some(url) = env_url {
            return Ok(url);
        }
        proof {
            reveal_strlit("default");
        }
        if let Ok(secret) = self.get_ollama("default") {
            return Ok(secret.base_url.clone());
        }
        Ok(String::from_str("http://localhost:11434"))
    }

    /// Where the secrets file is.
    pub fn config_path(&self) -> (r: &str)
        ensures
            r@ == self.path(),
    {
        self.config_path.as_str()
    }
}

} // verus!
