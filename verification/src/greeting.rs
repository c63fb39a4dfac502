//! The greeting command: pure text substitution.

use vstd::prelude::*;
use vstd::string::*;

verus! {

/// The text of the greeting for `name`: the name is placed between a fixed
/// prefix and a fixed suffix, character for character.
pub open spec fn greeting_text(name: Seq<char>) -> Seq<char> {
    "Hello, "@ + name + "! You've been greeted from Rust!"@
}

/// Greets `name`. Nothing in the name is trimmed, escaped or otherwise
/// changed.
pub fn greet(name: &str) -> (greeting: String)
    ensures
        greeting@ == greeting_text(name@),
{
    let mut greeting = String::from_str("Hello, ");
    greeting.append(name);
    greeting.append("! You've been greeted from Rust!");
    greeting
}

} // verus!
