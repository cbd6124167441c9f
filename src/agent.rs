//! The request/response protocol between a game session and an agent.

use vstd::prelude::*;
use crate::games::stats::GameSnapshot;

verus! {

/// Why an agent could not produce a move.
#[derive(Clone, Debug, PartialEq, Eq)]
pub enum AgentError {
    /// The request handed to the agent was malformed.
    InvalidRequest(String),
    /// The agent answered with content that is not a usable move document.
    InvalidResponse(String),
    /// The backend or its transport failed.
    Internal(String),
}

impl AgentError {
    /// The human-readable message of the error.
    pub open spec fn message(&self) -> Seq<char> {
        match self {
            AgentError::InvalidRequest(msg) => "invalid request: "@ + msg@,
            AgentError::InvalidResponse(msg) => "invalid response: "@ + msg@,
            AgentError::Internal(msg) => "internal error: "@ + msg@,
        }
    }

    /// Renders the error as text.
    pub fn to_string(&self) -> (r: String)
        ensures
            r@ == self.message(),
    {
        match self {
            AgentError::InvalidRequest(msg) => String::from_str("invalid request: ").concat(msg.as_str()),
            AgentError::InvalidResponse(msg) => String::from_str("invalid response: ").concat(msg.as_str()),
            AgentError::Internal(msg) => String::from_str("internal error: ").concat(msg.as_str()),
        }
    }
}

} // verus!

verus! {

#[verifier::external_type_specification]
#[verifier::external_body]
pub struct ExValue(serde_json::Value);

/// What `serde_json::Value::get` finds under a string key: the member of
/// that name when the value is an object holding one.
pub uninterp spec fn member_of(v: serde_json::Value, key: Seq<char>) -> Option<serde_json::Value>;

/// What `serde_json::Value::as_u64` reads: the number when the value is an
/// integer that fits in `u64`.
pub uninterp spec fn u64_of(v: serde_json::Value) -> Option<u64>;

/// What `serde_json::Value::as_str` reads: the text when the value is a string.
pub uninterp spec fn str_of(v: serde_json::Value) -> Option<Seq<char>>;

/// Relies on `serde_json::Value::get` with a string key; its result depends
/// on the value and the key alone.
#[verifier::external_body]
pub(crate) fn json_member<'a>(v: &'a serde_json::Value, key: &str) -> (r: Option<&'a serde_json::Value>)
    ensures
        match r {
            Some(m) => member_of(*v, key@) == Some(*m),
            None => member_of(*v, key@) is None,
        },
{
    v.get(key)
}

/// Relies on `serde_json::Value::as_u64`; its result depends on the value alone.
pub assume_specification[ serde_json::Value::as_u64 ](v: &serde_json::Value) -> (r: Option<u64>)
    ensures
        r == u64_of(*v),
;

/// Relies on `serde_json::Value::as_str`; its result depends on the value alone.
pub assume_specification<'a>[ serde_json::Value::as_str ](v: &'a serde_json::Value) -> (r: Option<&'a str>)
    ensures
        match r {
            Some(t) => str_of(*v) == Some(t@),
            None => str_of(*v) is None,
        },
;

/// Relies on `serde_json::Value::Null`: the document that stands for no move.
#[verifier::external_body]
pub(crate) fn null_document() -> serde_json::Value {
    serde_json::Value::Null
}

/// The integer member `key` of a document, when it has one that fits in `u64`.
pub open spec fn u64_field(v: serde_json::Value, key: Seq<char>) -> Option<u64> {
    match member_of(v, key) {
        Some(m) => u64_of(m),
        None => None,
    }
}

/// The text member `key` of a document, when it has one.
pub open spec fn str_field(v: serde_json::Value, key: Seq<char>) -> Option<Seq<char>> {
    match member_of(v, key) {
        Some(m) => str_of(m),
        None => None,
    }
}

/// Reads the text member `key` of a document.
pub fn read_str_field<'a>(v: &'a serde_json::Value, key: &str) -> (r: Option<&'a str>)
    ensures
        match r {
            Some(t) => str_field(*v, key@) == Some(t@),
            None => str_field(*v, key@) is None,
        },
{
    match json_member(v, key) {
        Some(m) => m.as_str(),
        None => None,
    }
}

/// Reads the integer member `key` of a document.
pub fn read_u64_field(v: &serde_json::Value, key: &str) -> (r: Option<u64>)
    ensures
        r == u64_field(*v, key@),
{
    match json_member(v, key) {
        Some(m) => m.as_u64(),
        None => None,
    }
}

/// What an agent is asked: the game it plays, the turn, a snapshot of the game
/// and the shape its move must have.
#[derive(Clone, Debug)]
pub struct MoveRequest {
    pub turn_index: u32,
    pub game_id: String,
    pub state: GameSnapshot,
    pub expected_move_schema: MoveSchema,
}

/// What an agent answers: its move as a JSON document, and optional notes.
#[derive(Debug)]
pub struct MoveResponse {
    pub chosen_move: serde_json::Value,
    pub diagnostics: Option<String>,
}

/// The shape of a legal move document, as described to the agent.
#[derive(Clone, Copy, Debug, PartialEq, Eq, Structural)]
pub enum MoveSchema {
    /// `{"row": r, "col": c}` with both indices in `0..=max_index`.
    Cell { max_index: u32 },
    /// `{"column": c}` with `c` in `0..=max_index`.
    Column { max_index: u32 },
    /// `{"choice": "rock" | "paper" | "scissors"}`.
    Choice,
}

} // verus!
