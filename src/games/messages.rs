//! Messages shared by the game state machines.

use vstd::prelude::*;
use crate::agent::AgentError;

verus! {

/// How a winner is named: the agent, then its mark or seat in parentheses.
pub open spec fn winner_name(agent: Seq<char>, label: Seq<char>) -> Seq<char> {
    agent + " ("@ + label + ")"@
}

/// Writes the name of a winner.
pub fn winner_text(agent: &str, label: &str) -> (r: String)
    ensures
        r@ == winner_name(agent@, label@),
{
    String::from_str(agent).concat(" (").concat(label).concat(")")
}

/// The message of an answer that lacks a usable integer field.
pub open spec fn missing_field_message(field: Seq<char>) -> Seq<char> {
    "Missing or invalid '"@ + field + "' field"@
}

/// Writes the message of a missing field.
pub fn missing_field_text(field: &str) -> (r: String)
    ensures
        r@ == missing_field_message(field@),
{
    String::from_str("Missing or invalid '").concat(field).concat("' field")
}

/// The message of a failed agent call.
pub open spec fn agent_error_message(e: AgentError) -> Seq<char> {
    "Agent error: "@ + e.message()
}

/// Writes the message of a failed agent call.
pub fn agent_error_text(e: &AgentError) -> (r: String)
    ensures
        r@ == agent_error_message(*e),
{
    String::from_str("Agent error: ").concat(e.to_string().as_str())
}

} // verus!
