//! Identifiers of game sessions.

use vstd::prelude::*;

verus! {

/// Relies on `uuid::Uuid::new_v4` and its `Display`, which writes the
/// hyphenated form: 36 characters.
#[verifier::external_body]
fn random_uuid_text() -> (r: String)
    ensures
        r@.len() == 36,
{
    uuid::Uuid::new_v4().to_string()
}

/// A fresh identifier: `prefix` followed by the first 8 characters of a random UUID.
pub fn new_game_id(prefix: &str) -> (r: String)
    ensures
        r@.len() == prefix@.len() + 8,
        r@.subrange(0, prefix@.len() as int) == prefix@,
{
    let id = random_uuid_text();
    let head = id.as_str().substring_char(0, 8);
    let r = String::from_str(prefix).concat(head);
    assert(r@.subrange(0, prefix@.len() as int) =~= prefix@);
    r
}

} // verus!
