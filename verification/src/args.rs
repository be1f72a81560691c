//! The agent's configuration, and what follows from it.

use vstd::prelude::*;
use crate::engine::Plan;
use crate::hub::RepoLocator;
use crate::local::checkout_path_of;
use crate::local::clone_url_of;
use crate::local::LocalRepo;
use crate::s3::key_prefix_of;
use crate::s3::log_key_prefix;
use crate::s3::Bucket;
use crate::ui::Property;

verus! {

/// Everything the agent is started with.
#[derive(Debug)]
pub struct Args {
    /// User the agent connects to the platform as.
    pub user: String,
    /// Access token of that user.
    pub token: String,
    /// Owner of the watched repository.
    pub owner: String,
    /// Name of the watched repository.
    pub repository: String,
    /// The watched branch.
    pub branch: String,
    /// Label under which statuses are reported.
    pub context: String,
    /// Build script, relative to the root of the working copy.
    pub script: String,
    /// Region of the log bucket.
    pub region: String,
    /// Name of the log bucket.
    pub bucket: String,
}

impl Args {
    /// The watched repository.
    pub fn repo(&self) -> (repo: RepoLocator)
        ensures
            repo.owner@ == self.owner@,
            repo.repo@ == self.repository@,
    {
        RepoLocator { owner: self.owner.clone(), repo: self.repository.clone() }
    }

    /// The facts about the configuration that the dashboard lists.
    pub fn properties(&self) -> (properties: Vec<Property>)
        ensures
            properties@.len() == 4,
            properties@[0].name@ == "Owner"@ && properties@[0].value@ == self.owner@,
            properties@[1].name@ == "Repo"@ && properties@[1].value@ == self.repository@,
            properties@[2].name@ == "Branch"@ && properties@[2].value@ == self.branch@,
            properties@[3].name@ == "Build Type"@ && properties@[3].value@ == self.context@,
    {
        let mut properties = Vec::new();
        properties.push(Property::new("Owner", self.owner.as_str()));
        properties.push(Property::new("Repo", self.repository.as_str()));
        properties.push(Property::new("Branch", self.branch.as_str()));
        properties.push(Property::new("Build Type", self.context.as_str()));
        properties
    }

    /// Where this configuration's logs go: the configured bucket, under a
    /// prefix of its own for the branch and the context.
    pub fn log_bucket(&self) -> (bucket: Bucket)
        ensures
            bucket.region_view() == self.region@,
            bucket.bucket_view() == self.bucket@,
            bucket.key_prefix_view() == key_prefix_of(self.branch@, self.context@),
    {
        Bucket::new(
            self.region.clone(),
            self.bucket.clone(),
            log_key_prefix(self.branch.as_str(), self.context.as_str()),
        )
    }

    /// The working copy of the watched repository.
    pub fn local_repo(&self) -> (local: LocalRepo)
        ensures
            local.remote_url_view() == clone_url_of(
                self.user@,
                self.token@,
                self.owner@,
                self.repository@,
            ),
            local.path_view() == checkout_path_of(self.owner@, self.repository@, self.context@),
            local.branch_view() == self.branch@,
    {
        let repo = self.repo();
        LocalRepo::new(
            self.user.as_str(),
            self.token.as_str(),
            &repo,
            self.branch.as_str(),
            self.context.as_str(),
        )
    }

    /// What every attempt of this configuration works by.
    pub fn plan(&self) -> (plan: Plan)
        ensures
            plan.context@ == self.context@,
            plan.working_dir@ == checkout_path_of(self.owner@, self.repository@, self.context@),
            plan.script_path@ == checkout_path_of(self.owner@, self.repository@, self.context@)
                + "/"@ + self.script@,
            plan.bucket.region_view() == self.region@,
            plan.bucket.bucket_view() == self.bucket@,
            plan.bucket.key_prefix_view() == key_prefix_of(self.branch@, self.context@),
    {
        let local = self.local_repo();
        Plan {
            context: self.context.clone(),
            working_dir: local.path().to_owned(),
            script_path: local.script_path(self.script.as_str()),
            bucket: self.log_bucket(),
        }
    }
}

} // verus!
