//! The greeting command.

use vstd::prelude::*;

verus! {

/// The greeting for `name`: a fixed opening, the name as given, a fixed close.
pub open spec fn greeting(name: Seq<char>) -> Seq<char> {
    "Hello, "@ + name + "! You've been greeted from Rust!"@
}

/// Greets `name`.
///
/// The name is copied into the text as it stands, after the seven characters
/// of the opening; nothing is escaped, trimmed or otherwise altered.
pub fn greet(name: &str) -> (text: String)
    ensures
        text@ == greeting(name@),
        text@.len() == name@.len() + 39,
        text@.subrange(7, 7 + name@.len() as int) == name@,
{
    let mut text = String::from_str("Hello, ");
    text.append(name);
    text.append("! You've been greeted from Rust!");
    proof {
        reveal_strlit("Hello, ");
        reveal_strlit("! You've been greeted from Rust!");
    }
    text
}

} // verus!
