//! The request that announces a build as a check run.

use vstd::prelude::*;

verus! {

/// What a check run shows of its result.
#[derive(Debug)]
pub struct Output {
    pub title: &'static str,
    pub summary: &'static str,
}

/// A check run: its name, the commit it is about, and what it shows.
#[derive(Debug)]
pub struct Check {
    pub name: &'static str,
    pub head_sha: String,
    pub output: Output,
}

/// The platform's answer to a created check run.
#[derive(Debug)]
pub struct CheckCreated {
    pub id: u32,
}

/// The request to create a check run in the repository at `repo_url`.
#[derive(Debug)]
pub struct CreateCheck {
    pub repo_url: String,
    pub check: Check,
}

/// A request to create a check run, as plain values.
pub struct CreateCheckView {
    pub repo_url: Seq<char>,
    pub name: Seq<char>,
    pub head_sha: Seq<char>,
    pub title: Seq<char>,
    pub summary: Seq<char>,
}

impl View for CreateCheck {
    type V = CreateCheckView;

    open spec fn view(&self) -> CreateCheckView {
        CreateCheckView {
            repo_url: self.repo_url@,
            name: self.check.name@,
            head_sha: self.check.head_sha@,
            title: self.check.output.title@,
            summary: self.check.output.summary@,
        }
    }
}

} // verus!
