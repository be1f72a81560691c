//! Vocabulary shared by requests and responses.

use vstd::prelude::*;
use crate::text::same_text;

verus! {

/// The state of a commit status, exactly as the hosting platform names it.
#[derive(Clone, Copy, Debug, PartialEq, Eq, Structural)]
pub enum State {
    Error,
    Failure,
    Pending,
    Success,
}

impl State {
    /// The platform's word for a state.
    pub open spec fn wire_name(self) -> Seq<char> {
        match self {
            State::Error => "error"@,
            State::Failure => "failure"@,
            State::Pending => "pending"@,
            State::Success => "success"@,
        }
    }

    /// The word under which the platform sends and accepts this state.
    pub fn as_str(&self) -> (name: &'static str)
        ensures
            name@ == self.wire_name(),
    {
        match self {
            State::Error => "error",
            State::Failure => "failure",
            State::Pending => "pending",
            State::Success => "success",
        }
    }

    /// The state that the platform names by a word; none for any other
    /// text.
    pub fn from_wire(name: &str) -> (state: Option<State>)
        ensures
            forall|s: State| name@ == s.wire_name() <==> state == Some(s),
    {
        let state = if same_text(name, "error") {
            Some(State::Error)
        } else if same_text(name, "failure") {
            Some(State::Failure)
        } else if same_text(name, "pending") {
            Some(State::Pending)
        } else if same_text(name, "success") {
            Some(State::Success)
        } else {
            None
        };
        proof {
            lemma_wire_names_differ();
            assert forall|s: State| name@ == s.wire_name() <==> state == Some(s) by {
                match state {
                    Some(found) => {
                        assert(name@ == found.wire_name());
                    },
                    None => {
                        assert(name@ != State::Error.wire_name());
                        assert(name@ != State::Failure.wire_name());
                        assert(name@ != State::Pending.wire_name());
                        assert(name@ != State::Success.wire_name());
                    },
                }
            }
        }
        state
    }

    /// The state that a finished build is reported with: a zero exit code is
    /// a success, anything else a failure.
    pub fn from_exit(exit_success: bool) -> (state: State)
        ensures
            state == (if exit_success { State::Success } else { State::Failure }),
            state != State::Error,
            state != State::Pending,
    {
        if exit_success {
            State::Success
        } else {
            State::Failure
        }
    }
}

/// No two states share a word.
pub proof fn lemma_wire_names_differ()
    ensures
        forall|s: State, t: State| s.wire_name() == t.wire_name() ==> s == t,
{
    reveal_strlit("error");
    reveal_strlit("failure");
    reveal_strlit("pending");
    reveal_strlit("success");
    assert("error"@.len() == 5);
    assert("failure"@[0] == 'f');
    assert("pending"@[0] == 'p');
    assert("success"@[0] == 's');
}

} // verus!
