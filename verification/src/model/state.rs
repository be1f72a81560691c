//! What is known about a commit.

use vstd::prelude::*;

verus! {

/// How far the build of a commit has come.
#[derive(Clone, Copy, Debug, PartialEq, Eq, Structural)]
pub enum CommitState {
    /// Nothing has been started.
    Pending,
    /// An agent is at work.
    Building { agent_id: u32 },
    /// The build has ended.
    Built { was_successful: bool },
}

} // verus!
