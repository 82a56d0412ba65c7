//! The health record of a repository, with its pipeline runs and dependencies.

use vstd::prelude::*;
use vstd::string::StringExecFns;
use crate::links::{built_text, repo_github_url, repo_page_url, LinkError};
use crate::status::PipelineStatus;
use crate::triggers::{Trigger, Triggers};

verus! {

/// Dependency status. Whether a dependency is outdated is what the data source
/// says; the two versions are never compared.
#[derive(Debug)]
pub struct Dependency {
    pub name: String,
    pub current_version: String,
    pub latest_version: String,
    pub is_outdated: bool,
}

/// A dependency as plain values.
pub struct DependencyView {
    pub name: Seq<char>,
    pub current_version: Seq<char>,
    pub latest_version: Seq<char>,
    pub is_outdated: bool,
}

impl View for Dependency {
    type V = DependencyView;

    open spec fn view(&self) -> DependencyView {
        DependencyView {
            name: self.name@,
            current_version: self.current_version@,
            latest_version: self.latest_version@,
            is_outdated: self.is_outdated,
        }
    }
}

impl Clone for Dependency {
    fn clone(&self) -> (copy: Dependency)
        ensures
            copy == *self,
    {
        Dependency {
            name: self.name.clone(),
            current_version: self.current_version.clone(),
            latest_version: self.latest_version.clone(),
            is_outdated: self.is_outdated,
        }
    }
}

/// The dependencies of a list as plain values.
pub open spec fn dependency_views(deps: Seq<Dependency>) -> Seq<DependencyView> {
    deps.map_values(|d: Dependency| d@)
}

/// Individual pipeline/workflow summary.
#[derive(Debug)]
pub struct PipelineSummary {
    pub name: String,
    pub status: PipelineStatus,
    /// How long the run took, in whole seconds; `None` while it is not measured.
    pub run_time: Option<i64>,
    /// The address of the run's page, as it is written into a link.
    pub github_url: String,
}

/// A pipeline run as plain values.
pub struct PipelineSummaryView {
    pub name: Seq<char>,
    pub status: PipelineStatus,
    pub run_time: Option<i64>,
    pub github_url: Seq<char>,
}

impl View for PipelineSummary {
    type V = PipelineSummaryView;

    open spec fn view(&self) -> PipelineSummaryView {
        PipelineSummaryView {
            name: self.name@,
            status: self.status,
            run_time: self.run_time,
            github_url: self.github_url@,
        }
    }
}

/// The pipeline runs of a list as plain values.
pub open spec fn pipeline_views(pipelines: Seq<PipelineSummary>) -> Seq<PipelineSummaryView> {
    pipelines.map_values(|p: PipelineSummary| p@)
}

/// Repository pipeline summary for display.
#[derive(Debug)]
pub struct RepoSummary {
    pub owner: String,
    pub repo: String,
    pub description: String,
    pub success_rate: u8,
    pub last_status: PipelineStatus,
    pub triggers: Triggers,
    pub deps_total: u32,
    pub deps_up_to_date: u32,
    pub pipelines: Vec<PipelineSummary>,
    pub dependencies: Vec<Dependency>,
}

/// A repository's health record as plain values.
pub struct RepoSummaryView {
    pub owner: Seq<char>,
    pub repo: Seq<char>,
    pub description: Seq<char>,
    pub success_rate: nat,
    pub last_status: PipelineStatus,
    pub triggers: Set<Trigger>,
    pub deps_total: nat,
    pub deps_up_to_date: nat,
    pub pipelines: Seq<PipelineSummaryView>,
    pub dependencies: Seq<DependencyView>,
}

impl RepoSummaryView {
    /// What a record has to meet: the success rate is a percentage, and no more
    /// dependencies are up to date than there are.
    pub open spec fn wf(self) -> bool {
        &&& self.success_rate <= 100
        &&& self.deps_up_to_date <= self.deps_total
    }

    /// The name under which a repository is shown: owner, a slash, repository.
    pub open spec fn full_name(self) -> Seq<char> {
        self.owner + "/"@ + self.repo
    }
}

impl View for RepoSummary {
    type V = RepoSummaryView;

    open spec fn view(&self) -> RepoSummaryView {
        RepoSummaryView {
            owner: self.owner@,
            repo: self.repo@,
            description: self.description@,
            success_rate: self.success_rate as nat,
            last_status: self.last_status,
            triggers: self.triggers@,
            deps_total: self.deps_total as nat,
            deps_up_to_date: self.deps_up_to_date as nat,
            pipelines: pipeline_views(self.pipelines@),
            dependencies: dependency_views(self.dependencies@),
        }
    }
}

/// The records of a list as plain values.
pub open spec fn repo_views(repos: Seq<RepoSummary>) -> Seq<RepoSummaryView> {
    repos.map_values(|r: RepoSummary| r@)
}

impl RepoSummary {
    /// Whether the record meets what `RepoSummaryView::wf` asks.
    pub open spec fn wf(&self) -> bool {
        self@.wf()
    }

    /// Checks that the record meets what its type asks of it.
    pub fn is_valid(&self) -> (valid: bool)
        ensures
            valid == self.wf(),
    {
        self.success_rate <= 100 && self.deps_up_to_date <= self.deps_total
    }

    /// Whether the pipeline runs on pushes to main.
    pub fn runs_on_main(&self) -> (runs: bool)
        ensures
            runs == self@.triggers.contains(Trigger::Main),
    {
        self.triggers.contains(Triggers::main())
    }

    /// Whether the pipeline runs on pull requests.
    pub fn runs_on_pr(&self) -> (runs: bool)
        ensures
            runs == self@.triggers.contains(Trigger::PullRequest),
    {
        self.triggers.contains(Triggers::pr())
    }

    /// Whether the pipeline runs on a schedule.
    pub fn runs_scheduled(&self) -> (runs: bool)
        ensures
            runs == self@.triggers.contains(Trigger::Scheduled),
    {
        self.triggers.contains(Triggers::scheduled())
    }

    /// Whether the pipeline can be triggered manually.
    pub fn runs_manual(&self) -> (runs: bool)
        ensures
            runs == self@.triggers.contains(Trigger::Manual),
    {
        self.triggers.contains(Triggers::manual())
    }

    /// The name under which the repository is shown.
    pub fn full_name(&self) -> (name: String)
        ensures
            name@ == self@.full_name(),
    {
        let mut name = self.owner.clone();
        name.append("/");
        name.append(self.repo.as_str());
        name
    }

    /// The address of the repository's page on the hosting site. Fails where the
    /// names are too long for a URL or the `url` crate refuses to build one.
    pub fn github_url(&self) -> (url: Result<String, LinkError>)
        ensures
            built_text(url) == repo_page_url(self@.owner, self@.repo),
    {
        repo_github_url(self.owner.as_str(), self.repo.as_str())
    }
}

} // verus!
