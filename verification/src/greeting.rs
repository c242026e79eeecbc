//! The greeting command: a name in, a fixed sentence around it out.

use vstd::prelude::*;
use vstd::string::StringExecFns;

verus! {

/// The sentence that greets `name`: the opening words, the name as given,
/// and the closing words.
pub open spec fn greeting_of(name: Seq<char>) -> Seq<char> {
    "Hello, "@ + name + "! You've been greeted from Rust!"@
}

/// Greets `name`. The name is taken as it is: nothing is trimmed, escaped or
/// checked, and the empty name is greeted too.
pub fn greet(name: &str) -> (greeting: String)
    ensures
        greeting@ == greeting_of(name@),
{
    let mut greeting = String::from_str("Hello, ");
    greeting.append(name);
    greeting.append("! You've been greeted from Rust!");
    greeting
}

} // verus!
