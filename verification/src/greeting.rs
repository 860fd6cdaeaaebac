//! The greeting shown to a user who gives a name.

use vstd::prelude::*;

verus! {

/// The greeting for a name: the name between a salutation and a closing
/// sentence, unchanged.
pub open spec fn greeting(name: Seq<char>) -> Seq<char> {
    "Hello, "@ + name + "! You've been greeted from Rust!"@
}

pub fn greet(name: &str) -> (text: String)
    ensures
        text@ == greeting(name@),
{
    String::from_str("Hello, ").concat(name).concat("! You've been greeted from Rust!")
}

} // verus!
