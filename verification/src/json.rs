//! The tasks as they arrive from the interface, and their text on disk.

use vstd::prelude::*;

verus! {

/// A JSON value of `serde_json`. Nothing here looks inside one: it is
/// carried from the caller to the encoder.
#[verifier::external_type_specification]
#[verifier::external_body]
pub struct ExValue(serde_json::Value);

/// What `serde_json::to_string` makes of a value: its compact JSON text,
/// or the encoder's description of why there is none.
pub uninterp spec fn json_text(value: serde_json::Value) -> Result<Seq<char>, Seq<char>>;

/// An encoder's answer with its texts as sequences of characters.
pub open spec fn encoded_view(answer: Result<String, String>) -> Result<Seq<char>, Seq<char>> {
    match answer {
        Ok(text) => Ok(text@),
        Err(reason) => Err(reason@),
    }
}

/// Calls `serde_json::to_string` on the value. The encoder reads the value
/// and nothing else, so the same value always gives the same answer; that
/// answer is what `json_text` names, and nothing more is claimed of it.
/// An error is handed on as the text its `Display` prints.
#[verifier::external_body]
pub(crate) fn encode(value: &serde_json::Value) -> (answer: Result<String, String>)
    ensures
        encoded_view(answer) == json_text(*value),
{
    match serde_json::to_string(value) {
        Ok(s) => Ok(s),
        Err(e) => Err(e.to_string()),
    }
}

/// The envelope in which the interface sends the tasks. Only what is
/// inside it reaches the disk.
pub struct TasksPayload {
    pub tasks: serde_json::Value,
}

} // verus!
