//! What the agent sends to the hosting platform.

use vstd::prelude::*;
use crate::hub::common::State;

verus! {

/// Query of the commit listing: `sha` names the branch whose history is asked
/// for.
#[derive(Debug)]
pub struct GetCommitsRequest<'a> {
    pub sha: &'a str,
}

/// Body of a status post.
#[derive(Debug)]
pub struct SetStatusRequest<'a> {
    pub state: State,
    pub target_url: Option<&'a str>,
    pub description: Option<&'a str>,
    pub context: Option<&'a str>,
}

impl<'a> GetCommitsRequest<'a> {
    /// The query for the history of `branch`.
    pub fn for_branch(branch: &'a str) -> (request: Self)
        ensures
            request.sha@ == branch@,
    {
        GetCommitsRequest { sha: branch }
    }
}

/// A text that may be absent, as plain values.
pub open spec fn text_of(text: Option<&str>) -> Option<Seq<char>> {
    match text {
        Some(t) => Some(t@),
        None => None,
    }
}

impl<'a> SetStatusRequest<'a> {
    /// The body that reports `state` under `context`, with a link if there
    /// is one; no description is sent.
    pub fn report(state: State, target_url: Option<&'a str>, context: &'a str) -> (request: Self)
        ensures
            request.state == state,
            text_of(request.target_url) == text_of(target_url),
            request.description is None,
            text_of(request.context) == Some(context@),
    {
        SetStatusRequest { state, target_url, description: None, context: Some(context) }
    }
}

} // verus!
