//! A fixed set of records that stands in for a data source, and the lookup of a
//! record by its identity.

use vstd::prelude::*;
use crate::links::{actions_run_url, github_actions_url, segments_len, LinkError};
use crate::text::decimal_nat;
use crate::record::{
    repo_views, Dependency, DependencyView, PipelineSummary, PipelineSummaryView, RepoSummary,
    RepoSummaryView,
};
use crate::status::PipelineStatus;
use crate::triggers::{Trigger, Triggers};

verus! {

/// Whether a record is the one of `owner`/`repo`: both names match exactly.
pub open spec fn is_record_of(record: RepoSummaryView, owner: Seq<char>, repo: Seq<char>) -> bool {
    record.owner == owner && record.repo == repo
}

/// The position of the first record of `owner`/`repo` in `records`, if there is
/// one.
pub open spec fn first_match(records: Seq<RepoSummaryView>, owner: Seq<char>, repo: Seq<char>)
    -> Option<int>
    decreases records.len(),
{
    if records.len() == 0 {
        None
    } else {
        match first_match(records.drop_last(), owner, repo) {
            Some(i) => Some(i),
            None => if is_record_of(records.last(), owner, repo) {
                Some(records.len() - 1)
            } else {
                None
            },
        }
    }
}

/// The first record of `owner`/`repo` in `records`, if there is one.
pub open spec fn found_record(records: Seq<RepoSummaryView>, owner: Seq<char>, repo: Seq<char>)
    -> Option<RepoSummaryView> {
    match first_match(records, owner, repo) {
        Some(i) => Some(records[i]),
        None => None,
    }
}

/// The record that a lookup gave, as plain values.
pub open spec fn option_record(found: Option<RepoSummary>) -> Option<RepoSummaryView> {
    match found {
        Some(record) => Some(record@),
        None => None,
    }
}

/// `first_match` gives the position of a record of `owner`/`repo` before which no
/// other such record stands, and gives none only where no record matches.
pub proof fn lemma_first_match(records: Seq<RepoSummaryView>, owner: Seq<char>, repo: Seq<char>)
    ensures
        match first_match(records, owner, repo) {
            Some(i) => {
                &&& 0 <= i < records.len()
                &&& is_record_of(records[i], owner, repo)
                &&& forall|j: int| 0 <= j < i ==> !is_record_of(#[trigger] records[j], owner, repo)
            },
            None => forall|j: int|
                0 <= j < records.len() ==> !is_record_of(#[trigger] records[j], owner, repo),
        },
    decreases records.len(),
{
    if records.len() > 0 {
        let before = records.drop_last();
        lemma_first_match(before, owner, repo);
        assert(forall|j: int| 0 <= j < before.len() ==> before[j] == records[j]);
    }
}

/// Finds the first record of `owner`/`repo` in `repos`.
pub fn find_in(repos: Vec<RepoSummary>, owner: &str, repo: &str) -> (found: Option<RepoSummary>)
    ensures
        option_record(found) == found_record(repo_views(repos@), owner@, repo@),
{
    let ghost records = repo_views(repos@);
    let owner_name = owner.to_owned();
    let repo_name = repo.to_owned();
    let mut held = repos;
    let mut i: usize = 0;
    while i < held.len()
        invariant
            i <= held.len(),
            held@ == repos@,
            records == repo_views(repos@),
            owner_name@ == owner@,
            repo_name@ == repo@,
            first_match(records.take(i as int), owner@, repo@) is None,
        decreases held.len() - i,
    {
        proof {
            assert(records.take(i + 1).drop_last() =~= records.take(i as int));
        }
        if held[i].owner == owner_name && held[i].repo == repo_name {
            proof {
                lemma_first_match_prefix(records, i + 1, owner@, repo@);
            }
            let record = held.remove(i);
            return Some(record);
        }
        i = i + 1;
    }
    assert(records.take(i as int) =~= records);
    None
}

/// A match within a prefix is the first match of the whole list.
proof fn lemma_first_match_prefix(
    records: Seq<RepoSummaryView>,
    n: int,
    owner: Seq<char>,
    repo: Seq<char>,
)
    requires
        0 <= n <= records.len(),
        first_match(records.take(n), owner, repo) is Some,
    ensures
        first_match(records, owner, repo) == first_match(records.take(n), owner, repo),
    decreases records.len(),
{
    if n == records.len() {
        assert(records.take(n) =~= records);
    } else {
        assert(records.drop_last().take(n) =~= records.take(n));
        lemma_first_match_prefix(records.drop_last(), n, owner, repo);
    }
}


/// A pipeline run of the fixed data: its page is the page of run `run_id` of the
/// repository.
pub open spec fn mock_pipeline(
    owner: Seq<char>,
    repo: Seq<char>,
    name: Seq<char>,
    status: PipelineStatus,
    run_time: Option<i64>,
    run_id: nat,
) -> Result<PipelineSummaryView, LinkError> {
    match actions_run_url(owner, repo, run_id) {
        Ok(github_url) => Ok(PipelineSummaryView { name, status, run_time, github_url }),
        Err(e) => Err(e),
    }
}

/// A dependency as plain values.
pub open spec fn mock_dependency(
    name: Seq<char>,
    current_version: Seq<char>,
    latest_version: Seq<char>,
    is_outdated: bool,
) -> DependencyView {
    DependencyView { name, current_version, latest_version, is_outdated }
}

/// The first record of the fixed data.
pub open spec fn mock_hubdash() -> Result<RepoSummaryView, LinkError> {
    match mock_pipeline(
        "example"@,
        "hubdash"@,
        "CI"@,
        PipelineStatus::Success,
        Some(154i64),
        123,
    ) {
        Err(e) => Err(e),
        Ok(ci) => match mock_pipeline(
            "example"@,
            "hubdash"@,
            "Deploy"@,
            PipelineStatus::Success,
            Some(312i64),
            124,
        ) {
            Err(e) => Err(e),
            Ok(deploy) => Ok(
                RepoSummaryView {
                    owner: "example"@,
                    repo: "hubdash"@,
                    description: "A GitHub dashboard for monitoring CI/CD pipeline health"@,
                    success_rate: 95,
                    last_status: PipelineStatus::Success,
                    triggers: set![Trigger::Main, Trigger::PullRequest, Trigger::Scheduled],
                    deps_total: 42,
                    deps_up_to_date: 40,
                    pipelines: seq![ci, deploy],
                    dependencies: seq![
                        mock_dependency("axum"@, "0.7.5"@, "0.8.0"@, true),
                        mock_dependency("tokio"@, "1.40.0"@, "1.40.0"@, false),
                        mock_dependency("maud"@, "0.26.0"@, "0.27.0"@, true),
                    ],
                },
            ),
        },
    }
}

/// The second record of the fixed data.
pub open spec fn mock_api_gateway() -> Result<RepoSummaryView, LinkError> {
    match mock_pipeline(
        "example"@,
        "api-gateway"@,
        "Build"@,
        PipelineStatus::Failure,
        Some(105i64),
        456,
    ) {
        Err(e) => Err(e),
        Ok(build) => Ok(
            RepoSummaryView {
                owner: "example"@,
                repo: "api-gateway"@,
                description: "API gateway service for routing and authentication"@,
                success_rate: 87,
                last_status: PipelineStatus::Failure,
                triggers: set![Trigger::Main, Trigger::PullRequest, Trigger::Manual],
                deps_total: 78,
                deps_up_to_date: 65,
                pipelines: seq![build],
                dependencies: seq![mock_dependency("express"@, "4.18.0"@, "4.21.0"@, true)],
            },
        ),
    }
}

/// The third record of the fixed data.
pub open spec fn mock_frontend_app() -> Result<RepoSummaryView, LinkError> {
    match mock_pipeline(
        "example"@,
        "frontend-app"@,
        "Test"@,
        PipelineStatus::Success,
        Some(202i64),
        789,
    ) {
        Err(e) => Err(e),
        Ok(test) => Ok(
            RepoSummaryView {
                owner: "example"@,
                repo: "frontend-app"@,
                description: "React frontend application"@,
                success_rate: 100,
                last_status: PipelineStatus::Success,
                triggers: set![
                    Trigger::Main,
                    Trigger::PullRequest,
                    Trigger::Scheduled,
                    Trigger::Manual,
                ],
                deps_total: 156,
                deps_up_to_date: 156,
                pipelines: seq![test],
                dependencies: Seq::empty(),
            },
        ),
    }
}

/// The fourth record of the fixed data.
pub open spec fn mock_data_pipeline() -> Result<RepoSummaryView, LinkError> {
    match mock_pipeline(
        "example"@,
        "data-pipeline"@,
        "ETL"@,
        PipelineStatus::Pending,
        None,
        101,
    ) {
        Err(e) => Err(e),
        Ok(etl) => Ok(
            RepoSummaryView {
                owner: "example"@,
                repo: "data-pipeline"@,
                description: "ETL data processing pipeline"@,
                success_rate: 72,
                last_status: PipelineStatus::Pending,
                triggers: set![Trigger::Main, Trigger::Scheduled],
                deps_total: 34,
                deps_up_to_date: 22,
                pipelines: seq![etl],
                dependencies: seq![mock_dependency("pandas"@, "1.5.0"@, "2.2.0"@, true)],
            },
        ),
    }
}

/// The fifth record of the fixed data.
pub open spec fn mock_legacy_service() -> RepoSummaryView {
    RepoSummaryView {
        owner: "example"@,
        repo: "legacy-service"@,
        description: "Legacy monolith service (deprecated)"@,
        success_rate: 45,
        last_status: PipelineStatus::Cancelled,
        triggers: set![Trigger::Main],
        deps_total: 89,
        deps_up_to_date: 31,
        pipelines: Seq::empty(),
        dependencies: Seq::empty(),
    }
}

/// The fixed data: five records, or the reason why the address of one of their
/// pipeline runs could not be built.
pub open spec fn mock_records() -> Result<Seq<RepoSummaryView>, LinkError> {
    match mock_hubdash() {
        Err(e) => Err(e),
        Ok(hubdash) => match mock_api_gateway() {
            Err(e) => Err(e),
            Ok(api_gateway) => match mock_frontend_app() {
                Err(e) => Err(e),
                Ok(frontend_app) => match mock_data_pipeline() {
                    Err(e) => Err(e),
                    Ok(data_pipeline) => Ok(
                        seq![
                            hubdash,
                            api_gateway,
                            frontend_app,
                            data_pipeline,
                            mock_legacy_service(),
                        ],
                    ),
                },
            },
        },
    }
}

/// The records that were built, as plain values, or the reason why they were not.
pub open spec fn built_records(repos: Result<Vec<RepoSummary>, LinkError>) -> Result<
    Seq<RepoSummaryView>,
    LinkError,
> {
    match repos {
        Ok(repos) => Ok(repo_views(repos@)),
        Err(e) => Err(e),
    }
}

/// The pipeline run that was built, as plain values, or the reason why it was not.
pub open spec fn built_pipeline(run: Result<PipelineSummary, LinkError>) -> Result<
    PipelineSummaryView,
    LinkError,
> {
    match run {
        Ok(run) => Ok(run@),
        Err(e) => Err(e),
    }
}

/// The record that was built, as plain values, or the reason why it was not.
pub open spec fn built_record(repo: Result<RepoSummary, LinkError>) -> Result<
    RepoSummaryView,
    LinkError,
> {
    match repo {
        Ok(repo) => Ok(repo@),
        Err(e) => Err(e),
    }
}

/// The address of a pipeline run of the fixed data is never too long: it can fail
/// to be built only because the `url` crate rejects it.
proof fn lemma_mock_run_fits(repo: Seq<char>, run_id: nat)
    requires
        repo.len() <= 20,
        run_id < 1000,
    ensures
        actions_run_url("example"@, repo, run_id) != Err::<Seq<char>, LinkError>(LinkError::TooLong),
{
    reveal_strlit("https://github.com");
    reveal_strlit("example");
    reveal_strlit("actions");
    reveal_strlit("runs");
    reveal_with_fuel(decimal_nat, 3);
    let segments = seq!["example"@, repo, "actions"@, "runs"@, decimal_nat(run_id)];
    reveal_with_fuel(segments_len, 6);
    assert(segments.drop_last() =~= seq!["example"@, repo, "actions"@, "runs"@]);
    assert(segments.drop_last().drop_last() =~= seq!["example"@, repo, "actions"@]);
    assert(segments.drop_last().drop_last().drop_last() =~= seq!["example"@, repo]);
    assert(segments.drop_last().drop_last().drop_last().drop_last() =~= seq!["example"@]);
    assert(segments_len(segments) <= 7 + 20 + 7 + 4 + 3 + 5);
}

/// The fixed data fails to be built only where the `url` crate rejects the address
/// of one of its five pipeline runs; it is never too long.
pub proof fn lemma_mock_records_fail_when_rejected_only()
    ensures
        mock_records() is Err ==> mock_records() == Err::<Seq<RepoSummaryView>, LinkError>(
            LinkError::Rejected,
        ),
        mock_records() is Err <==> actions_run_url("example"@, "hubdash"@, 123) is Err
            || actions_run_url("example"@, "hubdash"@, 124) is Err || actions_run_url(
            "example"@,
            "api-gateway"@,
            456,
        ) is Err || actions_run_url("example"@, "frontend-app"@, 789) is Err || actions_run_url(
            "example"@,
            "data-pipeline"@,
            101,
        ) is Err,
{
    reveal_strlit("hubdash");
    reveal_strlit("api-gateway");
    reveal_strlit("frontend-app");
    reveal_strlit("data-pipeline");
    lemma_mock_run_fits("hubdash"@, 123);
    lemma_mock_run_fits("hubdash"@, 124);
    lemma_mock_run_fits("api-gateway"@, 456);
    lemma_mock_run_fits("frontend-app"@, 789);
    lemma_mock_run_fits("data-pipeline"@, 101);
}

/// Every record of the fixed data meets what a record has to meet.
pub proof fn lemma_mock_records_wf()
    ensures
        mock_records() matches Ok(records) ==> records.len() == 5 && forall|i: int|
            0 <= i < records.len() ==> (#[trigger] records[i]).wf(),
{
}

/// Builds a pipeline run of the fixed data.
fn pipeline(
    owner: &str,
    repo: &str,
    name: &str,
    status: PipelineStatus,
    run_time: Option<i64>,
    run_id: u64,
) -> (run: Result<PipelineSummary, LinkError>)
    ensures
        built_pipeline(run) == mock_pipeline(owner@, repo@, name@, status, run_time, run_id as nat),
{
    match github_actions_url(owner, repo, run_id) {
        Ok(github_url) => Ok(PipelineSummary { name: name.to_owned(), status, run_time, github_url }),
        Err(e) => Err(e),
    }
}

/// Builds a dependency of the fixed data.
fn dependency(name: &str, current_version: &str, latest_version: &str, is_outdated: bool) -> (dep:
    Dependency)
    ensures
        dep@ == mock_dependency(name@, current_version@, latest_version@, is_outdated),
{
    Dependency {
        name: name.to_owned(),
        current_version: current_version.to_owned(),
        latest_version: latest_version.to_owned(),
        is_outdated,
    }
}

/// Builds the first record of the fixed data.
fn hubdash() -> (record: Result<RepoSummary, LinkError>)
    ensures
        built_record(record) == mock_hubdash(),
{
    let ci = match pipeline("example", "hubdash", "CI", PipelineStatus::Success, Some(154), 123) {
        Ok(run) => run,
        Err(e) => {
            return Err(e);
        },
    };
    let deploy = match pipeline(
        "example",
        "hubdash",
        "Deploy",
        PipelineStatus::Success,
        Some(312),
        124,
    ) {
        Ok(run) => run,
        Err(e) => {
            return Err(e);
        },
    };
    let triggers = Triggers::main().union(Triggers::pr()).union(Triggers::scheduled());
    let pipelines = vec![ci, deploy];
    let dependencies = vec![
        dependency("axum", "0.7.5", "0.8.0", true),
        dependency("tokio", "1.40.0", "1.40.0", false),
        dependency("maud", "0.26.0", "0.27.0", true),
    ];
    let record = RepoSummary {
        owner: "example".to_owned(),
        repo: "hubdash".to_owned(),
        description: "A GitHub dashboard for monitoring CI/CD pipeline health".to_owned(),
        success_rate: 95,
        last_status: PipelineStatus::Success,
        triggers,
        deps_total: 42,
        deps_up_to_date: 40,
        pipelines,
        dependencies,
    };
    proof {
        let expected = mock_hubdash()->Ok_0;
        assert(record@.triggers =~= expected.triggers);
        assert(record@.pipelines =~= expected.pipelines);
        assert(record@.dependencies =~= expected.dependencies);
    }
    Ok(record)
}

/// Builds the second record of the fixed data.
fn api_gateway() -> (record: Result<RepoSummary, LinkError>)
    ensures
        built_record(record) == mock_api_gateway(),
{
    let build = match pipeline(
        "example",
        "api-gateway",
        "Build",
        PipelineStatus::Failure,
        Some(105),
        456,
    ) {
        Ok(run) => run,
        Err(e) => {
            return Err(e);
        },
    };
    let triggers = Triggers::main().union(Triggers::pr()).union(Triggers::manual());
    let pipelines = vec![build];
    let dependencies = vec![dependency("express", "4.18.0", "4.21.0", true)];
    let record = RepoSummary {
        owner: "example".to_owned(),
        repo: "api-gateway".to_owned(),
        description: "API gateway service for routing and authentication".to_owned(),
        success_rate: 87,
        last_status: PipelineStatus::Failure,
        triggers,
        deps_total: 78,
        deps_up_to_date: 65,
        pipelines,
        dependencies,
    };
    proof {
        let expected = mock_api_gateway()->Ok_0;
        assert(record@.triggers =~= expected.triggers);
        assert(record@.pipelines =~= expected.pipelines);
        assert(record@.dependencies =~= expected.dependencies);
    }
    Ok(record)
}

/// Builds the third record of the fixed data.
fn frontend_app() -> (record: Result<RepoSummary, LinkError>)
    ensures
        built_record(record) == mock_frontend_app(),
{
    let test = match pipeline(
        "example",
        "frontend-app",
        "Test",
        PipelineStatus::Success,
        Some(202),
        789,
    ) {
        Ok(run) => run,
        Err(e) => {
            return Err(e);
        },
    };
    let triggers = Triggers::main().union(Triggers::pr()).union(Triggers::scheduled()).union(
        Triggers::manual(),
    );
    let pipelines = vec![test];
    let dependencies: Vec<Dependency> = Vec::new();
    let record = RepoSummary {
        owner: "example".to_owned(),
        repo: "frontend-app".to_owned(),
        description: "React frontend application".to_owned(),
        success_rate: 100,
        last_status: PipelineStatus::Success,
        triggers,
        deps_total: 156,
        deps_up_to_date: 156,
        pipelines,
        dependencies,
    };
    proof {
        let expected = mock_frontend_app()->Ok_0;
        assert(record@.triggers =~= expected.triggers);
        assert(record@.pipelines =~= expected.pipelines);
        assert(record@.dependencies =~= expected.dependencies);
    }
    Ok(record)
}

/// Builds the fourth record of the fixed data.
fn data_pipeline() -> (record: Result<RepoSummary, LinkError>)
    ensures
        built_record(record) == mock_data_pipeline(),
{
    let etl = match pipeline("example", "data-pipeline", "ETL", PipelineStatus::Pending, None, 101) {
        Ok(run) => run,
        Err(e) => {
            return Err(e);
        },
    };
    let triggers = Triggers::main().union(Triggers::scheduled());
    let pipelines = vec![etl];
    let dependencies = vec![dependency("pandas", "1.5.0", "2.2.0", true)];
    let record = RepoSummary {
        owner: "example".to_owned(),
        repo: "data-pipeline".to_owned(),
        description: "ETL data processing pipeline".to_owned(),
        success_rate: 72,
        last_status: PipelineStatus::Pending,
        triggers,
        deps_total: 34,
        deps_up_to_date: 22,
        pipelines,
        dependencies,
    };
    proof {
        let expected = mock_data_pipeline()->Ok_0;
        assert(record@.triggers =~= expected.triggers);
        assert(record@.pipelines =~= expected.pipelines);
        assert(record@.dependencies =~= expected.dependencies);
    }
    Ok(record)
}

/// Builds the fifth record of the fixed data.
fn legacy_service() -> (record: RepoSummary)
    ensures
        record@ == mock_legacy_service(),
{
    let pipelines: Vec<PipelineSummary> = Vec::new();
    let dependencies: Vec<Dependency> = Vec::new();
    let record = RepoSummary {
        owner: "example".to_owned(),
        repo: "legacy-service".to_owned(),
        description: "Legacy monolith service (deprecated)".to_owned(),
        success_rate: 45,
        last_status: PipelineStatus::Cancelled,
        triggers: Triggers::main(),
        deps_total: 89,
        deps_up_to_date: 31,
        pipelines,
        dependencies,
    };
    proof {
        let expected = mock_legacy_service();
        assert(record@.pipelines =~= expected.pipelines);
        assert(record@.dependencies =~= expected.dependencies);
    }
    record
}

/// Returns mock repository data for development and testing: the five records of
/// `mock_records`, each of them well-formed. Fails where the address of a pipeline
/// run cannot be built.
pub fn mock_repos() -> (repos: Result<Vec<RepoSummary>, LinkError>)
    ensures
        built_records(repos) == mock_records(),
        repos matches Ok(repos) ==> forall|i: int|
            0 <= i < repos.len() ==> (#[trigger] repos[i]).wf(),
{
    let first = match hubdash() {
        Ok(record) => record,
        Err(e) => {
            return Err(e);
        },
    };
    let second = match api_gateway() {
        Ok(record) => record,
        Err(e) => {
            return Err(e);
        },
    };
    let third = match frontend_app() {
        Ok(record) => record,
        Err(e) => {
            return Err(e);
        },
    };
    let fourth = match data_pipeline() {
        Ok(record) => record,
        Err(e) => {
            return Err(e);
        },
    };
    let repos = vec![first, second, third, fourth, legacy_service()];
    proof {
        assert(repo_views(repos@) =~= mock_records()->Ok_0);
        assert forall|i: int| 0 <= i < repos.len() implies (#[trigger] repos[i]).wf() by {
            assert(repos[i]@ == repo_views(repos@)[i]);
        }
    }
    Ok(repos)
}

/// The outcome of a lookup, as plain values.
pub open spec fn looked_up(found: Result<Option<RepoSummary>, LinkError>) -> Result<
    Option<RepoSummaryView>,
    LinkError,
> {
    match found {
        Ok(found) => Ok(option_record(found)),
        Err(e) => Err(e),
    }
}

/// The first record of `owner`/`repo` in the fixed data, if there is one.
pub open spec fn mock_record_of(owner: Seq<char>, repo: Seq<char>) -> Result<
    Option<RepoSummaryView>,
    LinkError,
> {
    match mock_records() {
        Ok(records) => Ok(found_record(records, owner, repo)),
        Err(e) => Err(e),
    }
}

/// Finds a repository by owner and name from the mock data. The names are matched
/// exactly; of several records with the same names the first is returned. Fails
/// where the mock data cannot be built.
pub fn find_repo(owner: &str, repo: &str) -> (found: Result<Option<RepoSummary>, LinkError>)
    ensures
        looked_up(found) == mock_record_of(owner@, repo@),
        found matches Ok(Some(record)) ==> record.wf(),
{
    match mock_repos() {
        Ok(repos) => {
            let found = find_in(repos, owner, repo);
            proof {
                lemma_first_match(mock_records()->Ok_0, owner@, repo@);
            }
            Ok(found)
        },
        Err(e) => Err(e),
    }
}

} // verus!
