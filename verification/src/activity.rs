//! The two-valued status of one interface.

use vstd::prelude::*;

verus! {

/// Whether an interface is up.
#[derive(Debug, Clone, Copy, PartialEq, Eq, Structural)]
pub enum State {
    Active,
    Inactive,
}

impl Default for State {
    /// An interface that has not been heard of counts as inactive.
    fn default() -> (state: State)
        ensures
            state == State::Inactive,
    {
        State::Inactive
    }
}

/// The status that a report's `state` text stands for: `Active` for the exact
/// text "Active", `Inactive` for anything else.
pub open spec fn state_of_text(text: Seq<char>) -> State {
    if text == "Active"@ {
        State::Active
    } else {
        State::Inactive
    }
}

impl State {
    /// Reads a report's `state` text.
    pub fn from_text(text: &str) -> (state: State)
        ensures
            state == state_of_text(text@),
    {
        if text.eq("Active") {
            State::Active
        } else {
            State::Inactive
        }
    }
}

} // verus!
