//! The answer of the native module's single entry point.
//!
//! The module exposes one call to its host. The call takes nothing, cannot
//! fail, and always answers with the same text. This crate holds that answer
//! and states, character by character, what it is; binding it to a host
//! runtime is left to the code that embeds the crate.

use vstd::prelude::*;

verus! {

/// The text of the answer: the eleven characters of `threadcount`.
pub open spec fn greeting() -> Seq<char> {
    seq!['t', 'h', 'r', 'e', 'a', 'd', 'c', 'o', 'u', 'n', 't']
}

/// Answers the host's call.
///
/// Takes no input and returns the same text on every call: exactly the
/// characters of [`greeting`], all of them ASCII. There is no failing case.
pub fn hello() -> (text: &'static str)
    ensures
        text@ == greeting(),
        text.is_ascii(),
{
    proof {
        reveal_strlit("threadcount");
    }
    let text: &'static str = "threadcount";
    text
}

} // verus!
