//! The request to build a commit.

use vstd::prelude::*;
use crate::github_client::commands::create_check::Check;
use crate::github_client::commands::create_check::CreateCheck;
use crate::github_client::commands::create_check::CreateCheckView;
use crate::github_client::commands::create_check::Output;
use crate::model::state::CommitState;
use crate::model::values::sha::Sha;

verus! {

/// The agent that a build is handed to.
pub const FIRST_AGENT: u32 = 0;

/// Name under which the agent's check runs appear.
pub const CHECK_NAME: &'static str = "craneci";

/// Title of the agent's check runs.
pub const CHECK_TITLE: &'static str = "Crane CI";

/// Summary of a check run that has just been started.
pub const CHECK_SUMMARY: &'static str = "TODO";

/// A request to build a commit of the repository at `repo_url`.
#[derive(Debug)]
pub struct StartBuild {
    pub repo_url: String,
}

/// What a request to build leads to.
#[derive(Debug)]
pub struct Started {
    /// The commit's state afterwards.
    pub commit: CommitState,
    /// The check run to create on the platform, if one is to be created.
    pub check: Option<CreateCheck>,
}

/// The check run that announces the build of a commit of a repository.
pub open spec fn announcement(repo_url: Seq<char>, head_sha: Seq<char>) -> CreateCheckView {
    CreateCheckView {
        repo_url,
        name: CHECK_NAME@,
        head_sha,
        title: CHECK_TITLE@,
        summary: CHECK_SUMMARY@,
    }
}

impl StartBuild {
    /// The check run that announces the build of `commit_id`: it goes to
    /// the request's repository, carries the commit's hash as text, and is
    /// named and titled after the agent.
    pub fn check_for(&self, commit_id: &Sha) -> (request: CreateCheck)
        ensures
            request@ == announcement(self.repo_url@, commit_id.text()),
    {
        CreateCheck {
            repo_url: self.repo_url.clone(),
            check: Check {
                name: CHECK_NAME,
                head_sha: commit_id.to_str().to_owned(),
                output: Output { title: CHECK_TITLE, summary: CHECK_SUMMARY },
            },
        }
    }

    /// Applies the request to a commit. A commit that nothing has been
    /// started for goes to the first agent, and exactly one check run is
    /// created for it, the one that announces its build. A commit that is
    /// being built or has been built stays as it is, and nothing is
    /// created.
    pub fn apply_to_commit(&self, commit_id: &Sha, commit: CommitState) -> (started: Started)
        ensures
            commit is Pending ==> {
                &&& started.commit == (CommitState::Building { agent_id: FIRST_AGENT })
                &&& started.check matches Some(request)
                &&& request@ == announcement(self.repo_url@, commit_id.text())
            },
            !(commit is Pending) ==> started.commit == commit && started.check is None,
    {
        match commit {
            CommitState::Pending => Started {
                commit: CommitState::Building { agent_id: FIRST_AGENT },
                check: Some(self.check_for(commit_id)),
            },
            CommitState::Building { .. } => Started { commit, check: None },
            CommitState::Built { .. } => Started { commit, check: None },
        }
    }
}

} // verus!
