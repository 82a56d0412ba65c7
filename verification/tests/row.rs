use hubdash::links::LinkError;
use hubdash::record::RepoSummary;
use hubdash::row::{repo_row, repo_row_with};
use hubdash::status::PipelineStatus;
use hubdash::triggers::Triggers;

fn record(owner: &str, repo: &str) -> RepoSummary {
    RepoSummary {
        owner: owner.to_string(),
        repo: repo.to_string(),
        description: "A description".to_string(),
        success_rate: 95,
        last_status: PipelineStatus::Success,
        triggers: Triggers::main().union(Triggers::pr()).union(Triggers::scheduled()),
        deps_total: 42,
        deps_up_to_date: 40,
        pipelines: Vec::new(),
        dependencies: Vec::new(),
    }
}

const YES: &str = "<td class=\"trigger-checks\"><span class=\"check-icon check-yes\">\u{2713}</span></td>";
const NO: &str = "<td class=\"trigger-checks\"><span class=\"check-icon check-no\">\u{2717}</span></td>";

#[test]
fn row_of_a_record() {
    let expected = [
        "<tbody x-data=\"expandable('/dashboard/repo/example/hubdash/expand', 'detail-example-hubdash')\">",
        "<tr class=\"repo-row\" x-bind:class=\"{ 'expanded': expanded }\" x-on:click=\"toggle()\">",
        "<td class=\"expand-cell\"><span class=\"expand-arrow\">\u{e2}\u{2013}\u{b6}</span></td>",
        "<td class=\"repo-name\">example/hubdash</td>",
        "<td class=\"success-rate\"><span class=\"rate-excellent\">95%</span></td>",
        "<td class=\"last-status\"><span class=\"status-badge status-success\">success</span></td>",
        YES,
        YES,
        YES,
        NO,
        "<td class=\"deps-total\">42</td>",
        "<td class=\"deps-current\"><span class=\"rate-excellent\">40</span></td>",
        "</tr>",
        "<tr class=\"repo-detail-row\" x-show=\"expanded\" x-cloak>",
        "<td colspan=\"10\" class=\"repo-detail-cell\"><div id=\"detail-example-hubdash\"></div></td>",
        "</tr>",
        "</tbody>",
    ]
    .concat();
    assert_eq!(repo_row(&record("example", "hubdash")), Ok(expected));
}

#[test]
fn row_shows_the_four_triggers_in_order() {
    let mut repo = record("o", "r");
    repo.triggers = Triggers::pr().union(Triggers::manual());
    let row = repo_row(&repo).unwrap();
    assert!(row.contains(&[NO, YES, NO, YES].concat()));

    repo.triggers = Triggers::main();
    let row = repo_row(&repo).unwrap();
    assert!(row.contains(&[YES, NO, NO, NO].concat()));

    repo.triggers = Triggers::empty();
    let row = repo_row(&repo).unwrap();
    assert!(row.contains(&[NO, NO, NO, NO].concat()));
}

#[test]
fn row_styles_rates_by_their_tiers() {
    let mut repo = record("o", "r");
    repo.success_rate = 74;
    repo.last_status = PipelineStatus::Failure;
    repo.deps_total = 3;
    repo.deps_up_to_date = 1;
    let row = repo_row(&repo).unwrap();
    assert!(row.contains("<td class=\"success-rate\"><span class=\"rate-warning\">74%</span></td>"));
    assert!(row.contains("<span class=\"status-badge status-failure\">failure</span>"));
    assert!(row.contains("<td class=\"deps-total\">3</td>"));
    assert!(row.contains("<td class=\"deps-current\"><span class=\"rate-critical\">1</span></td>"));
}

#[test]
fn row_of_a_record_without_dependencies_is_fully_current() {
    let mut repo = record("o", "r");
    repo.deps_total = 0;
    repo.deps_up_to_date = 0;
    let row = repo_row(&repo).unwrap();
    assert!(row.contains("<td class=\"deps-total\">0</td>"));
    assert!(row.contains("<td class=\"deps-current\"><span class=\"rate-excellent\">0</span></td>"));
}

#[test]
fn row_escapes_names() {
    let row = repo_row(&record("a&b", "<c>")).unwrap();
    assert!(row.starts_with(
        "<tbody x-data=\"expandable('/dashboard/repo/a&amp;b/%3Cc%3E/expand', 'detail-a&amp;b-&lt;c&gt;')\">"
    ));
    assert!(row.contains("<td class=\"repo-name\">a&amp;b/&lt;c&gt;</td>"));
    assert!(row.contains("<div id=\"detail-a&amp;b-&lt;c&gt;\"></div>"));
}

#[test]
fn row_with_a_given_path() {
    let repo = record("example", "hubdash");
    let row = repo_row_with(&repo, "/elsewhere?a=\"1\"");
    assert!(row.starts_with(
        "<tbody x-data=\"expandable('/elsewhere?a=&quot;1&quot;', 'detail-example-hubdash')\">"
    ));
    assert_eq!(
        repo_row_with(&repo, "/dashboard/repo/example/hubdash/expand"),
        repo_row(&repo).unwrap()
    );
}

#[test]
fn row_is_the_same_each_time() {
    let repo = record("example", "hubdash");
    assert_eq!(repo_row(&repo), repo_row(&repo));
}

#[test]
fn row_of_names_beyond_the_limit_fails() {
    let repo = record(&"a".repeat(hubdash::links::MAX_URL_INPUT), "r");
    assert_eq!(repo_row(&repo), Err(LinkError::TooLong));
}

#[test]
fn row_shows_the_arrow_glyph_bytes() {
    let row = repo_row(&record("o", "r")).unwrap();
    let arrow = String::from_utf8(vec![0xc3, 0xa2, 0xe2, 0x80, 0x93, 0xc2, 0xb6]).unwrap();
    assert!(row.contains(&format!("<span class=\"expand-arrow\">{}</span>", arrow)));
}
