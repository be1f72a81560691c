//! What the hosting platform answers.

use vstd::prelude::*;
use crate::hub::common::State;

verus! {

/// One entry of the commit listing.
#[derive(Debug)]
pub struct Commit {
    pub sha: String,
    pub html_url: String,
}

/// One recorded status of a commit.
#[derive(Debug)]
pub struct Status {
    pub state: State,
    pub target_url: Option<String>,
    pub description: Option<String>,
    pub context: Option<String>,
}

/// A text that may be absent, as plain values.
pub open spec fn text_view(text: Option<String>) -> Option<Seq<char>> {
    match text {
        Some(t) => Some(t@),
        None => None,
    }
}

/// A recorded status as plain values.
pub struct StatusView {
    pub state: State,
    pub target_url: Option<Seq<char>>,
    pub description: Option<Seq<char>>,
    pub context: Option<Seq<char>>,
}

impl View for Status {
    type V = StatusView;

    open spec fn view(&self) -> StatusView {
        StatusView {
            state: self.state,
            target_url: text_view(self.target_url),
            description: text_view(self.description),
            context: text_view(self.context),
        }
    }
}

} // verus!
