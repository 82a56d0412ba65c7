use hubdash::mocks::{find_in, find_repo, mock_repos};
use hubdash::record::RepoSummary;
use hubdash::status::PipelineStatus;
use hubdash::triggers::Triggers;

fn named(owner: &str, repo: &str, description: &str) -> RepoSummary {
    RepoSummary {
        owner: owner.to_string(),
        repo: repo.to_string(),
        description: description.to_string(),
        success_rate: 50,
        last_status: PipelineStatus::Pending,
        triggers: Triggers::empty(),
        deps_total: 0,
        deps_up_to_date: 0,
        pipelines: Vec::new(),
        dependencies: Vec::new(),
    }
}

#[test]
fn mock_data_holds_five_records_in_order() {
    let repos = mock_repos().unwrap();
    let names: Vec<String> = repos.iter().map(|r| r.full_name()).collect();
    assert_eq!(
        names,
        vec![
            "example/hubdash",
            "example/api-gateway",
            "example/frontend-app",
            "example/data-pipeline",
            "example/legacy-service",
        ]
    );
}

#[test]
fn mock_data_is_valid() {
    for repo in mock_repos().unwrap() {
        assert!(repo.is_valid());
        assert!(repo.success_rate <= 100);
        assert!(repo.deps_up_to_date <= repo.deps_total);
    }
}

#[test]
fn mock_data_first_record() {
    let repos = mock_repos().unwrap();
    let repo = &repos[0];
    assert_eq!(repo.owner, "example");
    assert_eq!(repo.repo, "hubdash");
    assert_eq!(repo.description, "A GitHub dashboard for monitoring CI/CD pipeline health");
    assert_eq!(repo.success_rate, 95);
    assert_eq!(repo.last_status, PipelineStatus::Success);
    assert_eq!(
        repo.triggers,
        Triggers::main().union(Triggers::pr()).union(Triggers::scheduled())
    );
    assert_eq!(repo.deps_total, 42);
    assert_eq!(repo.deps_up_to_date, 40);
    assert_eq!(repo.pipelines.len(), 2);
    assert_eq!(repo.pipelines[0].name, "CI");
    assert_eq!(repo.pipelines[0].status, PipelineStatus::Success);
    assert_eq!(repo.pipelines[0].run_time, Some(154));
    assert_eq!(
        repo.pipelines[0].github_url,
        "https://github.com/example/hubdash/actions/runs/123"
    );
    assert_eq!(repo.pipelines[1].name, "Deploy");
    assert_eq!(repo.pipelines[1].run_time, Some(312));
    assert_eq!(
        repo.pipelines[1].github_url,
        "https://github.com/example/hubdash/actions/runs/124"
    );
    let deps: Vec<(&str, &str, &str, bool)> = repo
        .dependencies
        .iter()
        .map(|d| {
            (d.name.as_str(), d.current_version.as_str(), d.latest_version.as_str(), d.is_outdated)
        })
        .collect();
    assert_eq!(
        deps,
        vec![
            ("axum", "0.7.5", "0.8.0", true),
            ("tokio", "1.40.0", "1.40.0", false),
            ("maud", "0.26.0", "0.27.0", true),
        ]
    );
}

#[test]
fn mock_data_other_records() {
    let repos = mock_repos().unwrap();

    let gateway = &repos[1];
    assert_eq!(gateway.description, "API gateway service for routing and authentication");
    assert_eq!(gateway.success_rate, 87);
    assert_eq!(gateway.last_status, PipelineStatus::Failure);
    assert_eq!(gateway.triggers, Triggers::main().union(Triggers::pr()).union(Triggers::manual()));
    assert_eq!((gateway.deps_total, gateway.deps_up_to_date), (78, 65));
    assert_eq!(gateway.pipelines.len(), 1);
    assert_eq!(gateway.pipelines[0].name, "Build");
    assert_eq!(gateway.pipelines[0].status, PipelineStatus::Failure);
    assert_eq!(gateway.pipelines[0].run_time, Some(105));
    assert_eq!(
        gateway.pipelines[0].github_url,
        "https://github.com/example/api-gateway/actions/runs/456"
    );
    assert_eq!(gateway.dependencies.len(), 1);
    assert_eq!(gateway.dependencies[0].name, "express");
    assert_eq!(gateway.dependencies[0].current_version, "4.18.0");
    assert_eq!(gateway.dependencies[0].latest_version, "4.21.0");
    assert!(gateway.dependencies[0].is_outdated);

    let frontend = &repos[2];
    assert_eq!(frontend.description, "React frontend application");
    assert_eq!(frontend.success_rate, 100);
    assert_eq!(frontend.last_status, PipelineStatus::Success);
    assert_eq!(
        frontend.triggers,
        Triggers::main()
            .union(Triggers::pr())
            .union(Triggers::scheduled())
            .union(Triggers::manual())
    );
    assert_eq!((frontend.deps_total, frontend.deps_up_to_date), (156, 156));
    assert_eq!(frontend.pipelines.len(), 1);
    assert_eq!(frontend.pipelines[0].name, "Test");
    assert_eq!(frontend.pipelines[0].run_time, Some(202));
    assert_eq!(
        frontend.pipelines[0].github_url,
        "https://github.com/example/frontend-app/actions/runs/789"
    );
    assert!(frontend.dependencies.is_empty());

    let data = &repos[3];
    assert_eq!(data.description, "ETL data processing pipeline");
    assert_eq!(data.success_rate, 72);
    assert_eq!(data.last_status, PipelineStatus::Pending);
    assert_eq!(data.triggers, Triggers::main().union(Triggers::scheduled()));
    assert_eq!((data.deps_total, data.deps_up_to_date), (34, 22));
    assert_eq!(data.pipelines.len(), 1);
    assert_eq!(data.pipelines[0].name, "ETL");
    assert_eq!(data.pipelines[0].status, PipelineStatus::Pending);
    assert_eq!(data.pipelines[0].run_time, None);
    assert_eq!(
        data.pipelines[0].github_url,
        "https://github.com/example/data-pipeline/actions/runs/101"
    );
    assert_eq!(data.dependencies.len(), 1);
    assert_eq!(data.dependencies[0].name, "pandas");
    assert_eq!(data.dependencies[0].current_version, "1.5.0");
    assert_eq!(data.dependencies[0].latest_version, "2.2.0");
    assert!(data.dependencies[0].is_outdated);

    let legacy = &repos[4];
    assert_eq!(legacy.description, "Legacy monolith service (deprecated)");
    assert_eq!(legacy.success_rate, 45);
    assert_eq!(legacy.last_status, PipelineStatus::Cancelled);
    assert_eq!(legacy.triggers, Triggers::main());
    assert_eq!((legacy.deps_total, legacy.deps_up_to_date), (89, 31));
    assert!(legacy.pipelines.is_empty());
    assert!(legacy.dependencies.is_empty());
}

#[test]
fn find_repo_finds_each_record() {
    for name in ["hubdash", "api-gateway", "frontend-app", "data-pipeline", "legacy-service"] {
        let found = find_repo("example", name).unwrap().unwrap();
        assert_eq!(found.owner, "example");
        assert_eq!(found.repo, name);
    }
}

#[test]
fn find_repo_matches_names_exactly() {
    assert!(find_repo("example", "Hubdash").unwrap().is_none());
    assert!(find_repo("Example", "hubdash").unwrap().is_none());
    assert!(find_repo("example", "hubdash ").unwrap().is_none());
    assert!(find_repo("example", "").unwrap().is_none());
    assert!(find_repo("hubdash", "example").unwrap().is_none());
    assert!(find_repo("nobody", "nothing").unwrap().is_none());
}

#[test]
fn find_in_returns_the_first_of_equal_names() {
    let repos = vec![
        named("o", "a", "first a"),
        named("o", "b", "first b"),
        named("o", "a", "second a"),
        named("o", "b", "second b"),
    ];
    assert_eq!(find_in(repos, "o", "b").unwrap().description, "first b");
}

#[test]
fn find_in_finds_the_last_record() {
    let repos = vec![named("o", "a", "1"), named("o", "b", "2"), named("p", "a", "3")];
    assert_eq!(find_in(repos, "p", "a").unwrap().description, "3");
}

#[test]
fn find_in_needs_both_names_to_match() {
    let repos = vec![named("o", "a", "1"), named("p", "b", "2")];
    assert!(find_in(repos, "o", "b").is_none());
}

#[test]
fn find_in_nothing_finds_nothing() {
    assert!(find_in(Vec::new(), "o", "a").is_none());
}
