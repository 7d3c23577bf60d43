//! The lifecycle states that a pane can show.

use vstd::prelude::*;

verus! {

/// Lifecycle state reported to Herdr: the `state` field of its socket API.
#[derive(Debug, Clone, Copy, PartialEq, Eq, Structural)]
pub enum State {
    /// Agent is ready for input (no turn in flight).
    Idle,
    /// Agent is actively running a turn.
    Working,
    /// Agent is waiting for a user decision (permission/approval prompt).
    Blocked,
    /// Session has finished and the pane is ready to be reviewed/closed.
    Done,
}

impl State {
    /// The word that stands for the state on the wire.
    pub open spec fn name(self) -> Seq<char> {
        match self {
            State::Idle => "idle"@,
            State::Working => "working"@,
            State::Blocked => "blocked"@,
            State::Done => "done"@,
        }
    }

    /// Returns the word that stands for the state on the wire.
    pub fn as_str(self) -> (word: &'static str)
        ensures
            word@ == self.name(),
    {
        match self {
            State::Idle => "idle",
            State::Working => "working",
            State::Blocked => "blocked",
            State::Done => "done",
        }
    }
}

/// The words are the four that Herdr knows.
pub proof fn state_names_are_the_known_words(state: State)
    ensures
        state is Idle ==> state.name() == "idle"@,
        state is Working ==> state.name() == "working"@,
        state is Blocked ==> state.name() == "blocked"@,
        state is Done ==> state.name() == "done"@,
{
}

/// No two states share a word, so the receiver can tell them apart.
pub proof fn state_names_are_distinct(a: State, b: State)
    ensures
        a.name() == b.name() <==> a == b,
{
    reveal_strlit("idle");
    reveal_strlit("working");
    reveal_strlit("blocked");
    reveal_strlit("done");
    assert("idle"@[0] == 'i');
    assert("done"@[0] == 'd');
    assert("working"@[0] == 'w');
    assert("blocked"@[0] == 'b');
}

} // verus!
