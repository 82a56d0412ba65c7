use hubdash::record::{Dependency, RepoSummary};
use hubdash::status::PipelineStatus;
use hubdash::triggers::Triggers;

fn record(triggers: Triggers) -> RepoSummary {
    RepoSummary {
        owner: "example".to_string(),
        repo: "hubdash".to_string(),
        description: String::new(),
        success_rate: 95,
        last_status: PipelineStatus::Success,
        triggers,
        deps_total: 42,
        deps_up_to_date: 40,
        pipelines: Vec::new(),
        dependencies: Vec::new(),
    }
}

#[test]
fn runs_on_each_trigger_alone() {
    let on_main = record(Triggers::main());
    assert!(on_main.runs_on_main());
    assert!(!on_main.runs_on_pr());
    assert!(!on_main.runs_scheduled());
    assert!(!on_main.runs_manual());

    let on_pr = record(Triggers::pr());
    assert!(!on_pr.runs_on_main());
    assert!(on_pr.runs_on_pr());
    assert!(!on_pr.runs_scheduled());
    assert!(!on_pr.runs_manual());

    let scheduled = record(Triggers::scheduled());
    assert!(!scheduled.runs_on_main());
    assert!(!scheduled.runs_on_pr());
    assert!(scheduled.runs_scheduled());
    assert!(!scheduled.runs_manual());

    let manual = record(Triggers::manual());
    assert!(!manual.runs_on_main());
    assert!(!manual.runs_on_pr());
    assert!(!manual.runs_scheduled());
    assert!(manual.runs_manual());
}

#[test]
fn runs_on_a_union_of_triggers() {
    let repo = record(Triggers::main().union(Triggers::scheduled()));
    assert!(repo.runs_on_main());
    assert!(!repo.runs_on_pr());
    assert!(repo.runs_scheduled());
    assert!(!repo.runs_manual());
}

#[test]
fn runs_on_nothing() {
    let repo = record(Triggers::empty());
    assert!(!repo.runs_on_main());
    assert!(!repo.runs_on_pr());
    assert!(!repo.runs_scheduled());
    assert!(!repo.runs_manual());
}

#[test]
fn full_name_joins_owner_and_repository() {
    assert_eq!(record(Triggers::empty()).full_name(), "example/hubdash");
}

#[test]
fn github_url_of_a_record() {
    assert_eq!(
        record(Triggers::empty()).github_url(),
        Ok("https://github.com/example/hubdash".to_string())
    );
}

#[test]
fn validity_of_a_record() {
    let mut repo = record(Triggers::empty());
    assert!(repo.is_valid());
    repo.deps_up_to_date = 42;
    assert!(repo.is_valid());
    repo.deps_up_to_date = 43;
    assert!(!repo.is_valid());
    repo.deps_up_to_date = 0;
    repo.success_rate = 100;
    assert!(repo.is_valid());
    repo.success_rate = 101;
    assert!(!repo.is_valid());
}

#[test]
fn clone_of_a_dependency_is_equal_in_every_field() {
    let dep = Dependency {
        name: "axum".to_string(),
        current_version: "0.7.5".to_string(),
        latest_version: "0.8.0".to_string(),
        is_outdated: true,
    };
    let copy = dep.clone();
    assert_eq!(copy.name, dep.name);
    assert_eq!(copy.current_version, dep.current_version);
    assert_eq!(copy.latest_version, dep.latest_version);
    assert_eq!(copy.is_outdated, dep.is_outdated);
}
