//! The dashboard page and the fragments that its rows load on demand.

use vstd::prelude::*;
use vstd::string::StringExecFns;
use crate::deps::{deps_list_markup, render_deps_list};
use crate::detail::{render_repo_detail, repo_detail_markup};
use crate::layout::{base_layout, page_markup};
use crate::links::{built_text, repo_deps_path, repo_page_url, segment_texts, LinkError};
use crate::mocks::{
    find_repo, found_record, is_record_of, lemma_first_match, mock_record_of, mock_records,
    mock_repos,
};
use crate::record::{repo_views, RepoSummary, RepoSummaryView};
use crate::row::{repo_row, repo_row_markup};

verus! {

/// The notice that stands in place of a fragment where the repository is unknown.
pub open spec fn not_found_markup() -> Seq<char> {
    "<div class=\"error\">Repository not found</div>"@
}

/// The markup of the rows of `repos`, in order, or the reason why the first row
/// that could not be rendered could not.
pub open spec fn repo_rows_markup(repos: Seq<RepoSummaryView>) -> Result<Seq<char>, LinkError>
    decreases repos.len(),
{
    if repos.len() == 0 {
        Ok(Seq::empty())
    } else {
        match repo_rows_markup(repos.drop_last()) {
            Err(e) => Err(e),
            Ok(rows) => match repo_row_markup(repos.last()) {
                Err(e) => Err(e),
                Ok(row) => Ok(rows + row),
            },
        }
    }
}

/// The body of the dashboard page around the rows of its table.
pub open spec fn dashboard_body_markup(rows: Seq<char>) -> Seq<char> {
    "<div class=\"dashboard-container\"><header class=\"dashboard-header\"><h1>Hubdash</h1><a href=\"/auth/signout\" class=\"sign-out-link\">Sign out</a></header><main class=\"dashboard-main\"><table class=\"repo-table\"><thead><tr><th class=\"expand-header\"></th><th>Repository</th><th>Success Rate</th><th>Last Run</th><th title=\"Runs on main branch\">Main</th><th title=\"Runs on pull requests\">PR</th><th title=\"Scheduled runs\">Sched</th><th title=\"Manual trigger\">Manual</th><th title=\"Total dependencies\">Deps</th><th title=\"Dependencies up to date\">Current</th></tr></thead>"@
        + rows + "</table></main></div>"@
}

/// The dashboard page with the rows `rows`.
pub open spec fn dashboard_markup(rows: Seq<char>) -> Seq<char> {
    page_markup(
        "Dashboard | Hubdash"@,
        seq!["/assets/theme.css"@, "/assets/dashboard.css"@],
        seq!["/assets/dashboard.js"@],
        dashboard_body_markup(rows),
    )
}

/// The dashboard page of `repos`: one row for each record, in order.
pub open spec fn dashboard_page_markup(repos: Seq<RepoSummaryView>) -> Result<
    Seq<char>,
    LinkError,
> {
    match repo_rows_markup(repos) {
        Ok(rows) => Ok(dashboard_markup(rows)),
        Err(e) => Err(e),
    }
}

/// What a request for the detail of `owner`/`repo` is answered with: the detail
/// fragment of the record, or the notice where there is no such record.
pub open spec fn expand_fragment(found: Option<RepoSummaryView>) -> Result<Seq<char>, LinkError> {
    match found {
        Some(record) => repo_detail_markup(record),
        None => Ok(not_found_markup()),
    }
}

/// What a request for the dependencies of `owner`/`repo` is answered with: the
/// dependency list of the record, or the notice where there is no such record.
pub open spec fn deps_fragment(found: Option<RepoSummaryView>) -> Seq<char> {
    match found {
        Some(record) => deps_list_markup(record),
        None => not_found_markup(),
    }
}

/// The answer to a request for the detail of `owner`/`repo`, looked up in the
/// fixed data.
pub open spec fn expand_answer(owner: Seq<char>, repo: Seq<char>) -> Result<Seq<char>, LinkError> {
    match mock_record_of(owner, repo) {
        Ok(found) => expand_fragment(found),
        Err(e) => Err(e),
    }
}

/// The answer to a request for the dependencies of `owner`/`repo`, looked up in
/// the fixed data.
pub open spec fn deps_answer(owner: Seq<char>, repo: Seq<char>) -> Result<Seq<char>, LinkError> {
    match mock_record_of(owner, repo) {
        Ok(found) => Ok(deps_fragment(found)),
        Err(e) => Err(e),
    }
}

/// A request fails only for want of an address, whatever names it gives. The
/// request for dependencies fails only where the fixed data cannot be built. The
/// request for a detail fails only there, or where the record is found and the
/// address of its page or, if it has dependencies, the path of their list cannot
/// be built. Where the fixed data is built and holds no record of the names, both
/// requests are answered with the notice.
pub proof fn lemma_requests_fail_for_addresses_only(owner: Seq<char>, repo: Seq<char>)
    ensures
        deps_answer(owner, repo) is Err <==> mock_records() is Err,
        expand_answer(owner, repo) is Err <==> mock_records() is Err || (mock_record_of(
            owner,
            repo,
        ) matches Ok(Some(record)) && (repo_page_url(record.owner, record.repo) is Err || (
            record.dependencies.len() > 0 && repo_deps_path(record.owner, record.repo) is Err))),
        mock_record_of(owner, repo) == Ok::<Option<RepoSummaryView>, LinkError>(None)
            ==> expand_answer(owner, repo) == Ok::<Seq<char>, LinkError>(not_found_markup())
            && deps_answer(owner, repo) == Ok::<Seq<char>, LinkError>(not_found_markup()),
{
}

/// Rendering has no hidden input: two records with the same plain values have the
/// same row, the same detail fragment and the same dependency list, so rendering a
/// record twice gives the same text twice.
pub proof fn lemma_rendering_repeats(one: RepoSummary, other: RepoSummary)
    requires
        one@ == other@,
    ensures
        repo_row_markup(one@) == repo_row_markup(other@),
        repo_detail_markup(one@) == repo_detail_markup(other@),
        deps_list_markup(one@) == deps_list_markup(other@),
{
}

/// A request for a repository that is not among `records` is answered with the
/// notice, for the detail as for the dependencies, and the notice is not empty.
pub proof fn lemma_unknown_repository_gets_notice(
    records: Seq<RepoSummaryView>,
    owner: Seq<char>,
    repo: Seq<char>,
)
    requires
        forall|i: int| 0 <= i < records.len() ==> !is_record_of(#[trigger] records[i], owner, repo),
    ensures
        expand_fragment(found_record(records, owner, repo)) == Ok::<Seq<char>, LinkError>(
            not_found_markup(),
        ),
        deps_fragment(found_record(records, owner, repo)) == not_found_markup(),
        not_found_markup().len() > 0,
{
    lemma_first_match(records, owner, repo);
    reveal_strlit("<div class=\"error\">Repository not found</div>");
}

/// Once the rows of a prefix have failed, the rows of the whole list fail for the
/// same reason.
proof fn lemma_repo_rows_error(repos: Seq<RepoSummaryView>, n: int)
    requires
        0 <= n <= repos.len(),
        repo_rows_markup(repos.take(n)) is Err,
    ensures
        repo_rows_markup(repos) == repo_rows_markup(repos.take(n)),
    decreases repos.len(),
{
    if n == repos.len() {
        assert(repos.take(n) =~= repos);
    } else {
        assert(repos.drop_last().take(n) =~= repos.take(n));
        lemma_repo_rows_error(repos.drop_last(), n);
    }
}

/// Renders the rows of `repos`, in order.
fn repo_rows(repos: &[RepoSummary]) -> (markup: Result<String, LinkError>)
    requires
        forall|i: int| 0 <= i < repos.len() ==> (#[trigger] repos[i]).wf(),
    ensures
        built_text(markup) == repo_rows_markup(repo_views(repos@)),
{
    let ghost views = repo_views(repos@);
    let mut markup = String::new();
    let mut i: usize = 0;
    while i < repos.len()
        invariant
            i <= repos.len(),
            views == repo_views(repos@),
            forall|i: int| 0 <= i < repos.len() ==> (#[trigger] repos[i]).wf(),
            repo_rows_markup(views.take(i as int)) == Ok::<Seq<char>, LinkError>(markup@),
        decreases repos.len() - i,
    {
        proof {
            assert(views.take(i + 1).drop_last() =~= views.take(i as int));
        }
        match repo_row(&repos[i]) {
            Ok(row) => {
                markup.append(row.as_str());
            },
            Err(e) => {
                proof {
                    lemma_repo_rows_error(views, i + 1);
                }
                return Err(e);
            },
        }
        i = i + 1;
    }
    assert(views.take(i as int) =~= views);
    Ok(markup)
}

/// Renders the notice that the repository was not found.
pub fn not_found() -> (markup: String)
    ensures
        markup@ == not_found_markup(),
{
    "<div class=\"error\">Repository not found</div>".to_owned()
}

/// Renders the dashboard page around the markup of its rows.
pub fn dashboard_page_with(rows: &str) -> (markup: String)
    ensures
        markup@ == dashboard_markup(rows@),
{
    let mut body =
        "<div class=\"dashboard-container\"><header class=\"dashboard-header\"><h1>Hubdash</h1><a href=\"/auth/signout\" class=\"sign-out-link\">Sign out</a></header><main class=\"dashboard-main\"><table class=\"repo-table\"><thead><tr><th class=\"expand-header\"></th><th>Repository</th><th>Success Rate</th><th>Last Run</th><th title=\"Runs on main branch\">Main</th><th title=\"Runs on pull requests\">PR</th><th title=\"Scheduled runs\">Sched</th><th title=\"Manual trigger\">Manual</th><th title=\"Total dependencies\">Deps</th><th title=\"Dependencies up to date\">Current</th></tr></thead>".to_owned();
    body.append(rows);
    body.append("</table></main></div>");
    let styles = ["/assets/theme.css", "/assets/dashboard.css"];
    let scripts = ["/assets/dashboard.js"];
    assert(segment_texts(styles@) =~= seq!["/assets/theme.css"@, "/assets/dashboard.css"@]);
    assert(segment_texts(scripts@) =~= seq!["/assets/dashboard.js"@]);
    base_layout("Dashboard | Hubdash", &styles, &scripts, body.as_str())
}

/// Renders the dashboard page of `repos`. Fails where the path of the detail
/// fragment of one of them cannot be built.
pub fn dashboard_page_of(repos: &[RepoSummary]) -> (markup: Result<String, LinkError>)
    requires
        forall|i: int| 0 <= i < repos.len() ==> (#[trigger] repos[i]).wf(),
    ensures
        built_text(markup) == dashboard_page_markup(repo_views(repos@)),
{
    match repo_rows(repos) {
        Ok(rows) => Ok(dashboard_page_with(rows.as_str())),
        Err(e) => Err(e),
    }
}

/// Renders the main dashboard page, with the rows of the mock data. Fails where
/// the mock data or the path of a detail fragment cannot be built.
pub fn dashboard_page() -> (markup: Result<String, LinkError>)
    ensures
        built_text(markup) == match mock_records() {
            Ok(records) => dashboard_page_markup(records),
            Err(e) => Err(e),
        },
{
    match mock_repos() {
        Ok(repos) => dashboard_page_of(repos.as_slice()),
        Err(e) => Err(e),
    }
}

/// Returns the expanded detail HTML for a repository row: the detail fragment of
/// the record of `owner`/`repo` in the mock data, or the notice that there is no
/// such record. Fails where the mock data or an address of the fragment cannot be
/// built.
pub fn repo_expand(owner: &str, repo: &str) -> (markup: Result<String, LinkError>)
    ensures
        built_text(markup) == expand_answer(owner@, repo@),
{
    match find_repo(owner, repo) {
        Ok(Some(record)) => render_repo_detail(&record),
        Ok(None) => Ok(not_found()),
        Err(e) => Err(e),
    }
}

/// Returns the dependencies list HTML for a repository: the dependency list of
/// the record of `owner`/`repo` in the mock data, or the notice that there is no
/// such record. Fails where the mock data cannot be built.
pub fn repo_deps(owner: &str, repo: &str) -> (markup: Result<String, LinkError>)
    ensures
        built_text(markup) == deps_answer(owner@, repo@),
{
    match find_repo(owner, repo) {
        Ok(Some(record)) => Ok(render_deps_list(&record)),
        Ok(None) => Ok(not_found()),
        Err(e) => Err(e),
    }
}

} // verus!
