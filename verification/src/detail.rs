//! The detail fragment of a repository: what its row shows once it is expanded.

use vstd::prelude::*;
use vstd::string::StringExecFns;
use crate::escape::{escaped, lemma_escaped_opens_no_tag, opens_no_tag, push_escaped};
use crate::links::{
    built_text, expandable_directive, expandable_directive_text, repo_deps_path, repo_deps_url,
    repo_page_url, LinkError,
};
use crate::metrics::{duration_text, format_duration, lemma_duration_text_plain};
use crate::record::{
    pipeline_views, PipelineSummary, PipelineSummaryView, RepoSummary, RepoSummaryView,
};
use crate::row::detail_id_text;
use crate::status::{status_badge, status_badge_markup};
use crate::text::{decimal_nat, decimal_string, lemma_decimal_nat_plain};

verus! {

/// The identifier of the element that takes the dependency list of a repository.
pub open spec fn deps_list_id_text(owner: Seq<char>, repo: Seq<char>) -> Seq<char> {
    "deps-list-"@ + owner + "-"@ + repo
}

/// The link to the repository's page and the repository's description.
pub open spec fn repo_info_markup(repo: RepoSummaryView, github_url: Seq<char>) -> Seq<char> {
    "<div class=\"repo-info\"><a href=\""@ + escaped(github_url)
        + "\" target=\"_blank\" class=\"repo-github-link\">\u{f0}\u{178}\u{201d}\u{2014} "@ + escaped(github_url)
        + "</a><p class=\"repo-description\">"@ + escaped(repo.description) + "</p></div>"@
}

/// The markup of one row of the pipelines table: name, status badge, run time and
/// a link to the run.
pub open spec fn pipeline_row_markup(pipeline: PipelineSummaryView) -> Seq<char> {
    "<tr><td>"@ + escaped(pipeline.name) + "</td><td>"@ + status_badge_markup(pipeline.status)
        + "</td><td class=\"pipeline-time\">"@ + duration_text(pipeline.run_time)
        + "</td><td><a href=\""@ + escaped(pipeline.github_url)
        + "\" target=\"_blank\" class=\"pipeline-link\">View</a></td></tr>"@
}

/// The markup of the rows of `pipelines`, in order.
pub open spec fn pipeline_rows_markup(pipelines: Seq<PipelineSummaryView>) -> Seq<char>
    decreases pipelines.len(),
{
    if pipelines.len() == 0 {
        Seq::empty()
    } else {
        pipeline_rows_markup(pipelines.drop_last()) + pipeline_row_markup(pipelines.last())
    }
}

/// The pipelines section: nothing where there is no pipeline run, else a heading
/// and a table with one row for each run.
pub open spec fn pipelines_section_markup(pipelines: Seq<PipelineSummaryView>) -> Seq<char> {
    if pipelines.len() == 0 {
        Seq::empty()
    } else {
        "<div class=\"pipelines-section\"><h3>Pipelines</h3><table class=\"pipelines-table\"><thead><tr><th>Name</th><th>Status</th><th>Duration</th><th>Link</th></tr></thead><tbody>"@
            + pipeline_rows_markup(pipelines) + "</tbody></table></div>"@
    }
}

/// The dependencies section: nothing where there is no dependency, else an
/// expandable heading that gives their number, and the empty element that takes
/// the dependency list once it is loaded from `deps_path`.
pub open spec fn deps_section_markup(repo: RepoSummaryView, deps_path: Seq<char>) -> Seq<char> {
    if repo.dependencies.len() == 0 {
        Seq::empty()
    } else {
        "<div class=\"deps-section\" x-data=\""@ + escaped(
            expandable_directive_text(deps_path, deps_list_id_text(repo.owner, repo.repo)),
        )
            + "\"><h3 class=\"deps-header\" x-bind:class=\"{ 'expanded': expanded }\" x-on:click=\"toggle()\"><span class=\"deps-expand-arrow\">\u{e2}\u{2013}\u{b6}</span> Dependencies ("@
            + decimal_nat(repo.dependencies.len())
            + ")</h3><div x-show=\"expanded\" x-cloak id=\""@ + escaped(
            deps_list_id_text(repo.owner, repo.repo),
        ) + "\" class=\"deps-list\"></div></div>"@
    }
}

/// The markup of the detail fragment of `repo`, with `github_url` as the address
/// of its page and `deps_path` as the path from which its dependency list loads.
pub open spec fn detail_markup(
    repo: RepoSummaryView,
    github_url: Seq<char>,
    deps_path: Seq<char>,
) -> Seq<char> {
    "<div class=\"repo-detail\">"@ + repo_info_markup(repo, github_url) + pipelines_section_markup(
        repo.pipelines,
    ) + deps_section_markup(repo, deps_path) + "</div>"@
}

/// The markup of the detail fragment of `repo`, or the reason why one of its
/// addresses could not be built. The path of the dependency list is built only
/// where there are dependencies.
pub open spec fn repo_detail_markup(repo: RepoSummaryView) -> Result<Seq<char>, LinkError> {
    match repo_page_url(repo.owner, repo.repo) {
        Err(e) => Err(e),
        Ok(github_url) => if repo.dependencies.len() == 0 {
            Ok(detail_markup(repo, github_url, Seq::empty()))
        } else {
            match repo_deps_path(repo.owner, repo.repo) {
                Err(e) => Err(e),
                Ok(deps_path) => Ok(detail_markup(repo, github_url, deps_path)),
            }
        },
    }
}

/// The two expandable units of a repository take what they load in different
/// elements: the identifier of the element for the detail is never that of the
/// element for the dependency list.
pub proof fn lemma_unit_ids_differ(owner: Seq<char>, repo: Seq<char>)
    ensures
        detail_id_text(owner, repo) != deps_list_id_text(owner, repo),
{
    reveal_strlit("detail-");
    reveal_strlit("deps-list-");
    assert(detail_id_text(owner, repo)[2] == 't');
}

/// A record without pipeline runs has no pipelines section, and a record without
/// dependencies has no dependencies section: what is left of the fragment is the
/// repository's information and the other section. Without dependencies the
/// fragment is the same whatever path is given for the dependency list.
pub proof fn lemma_detail_omits_empty_sections(
    repo: RepoSummaryView,
    github_url: Seq<char>,
    deps_path: Seq<char>,
    other_path: Seq<char>,
)
    ensures
        repo.pipelines.len() == 0 ==> detail_markup(repo, github_url, deps_path)
            == "<div class=\"repo-detail\">"@ + repo_info_markup(repo, github_url)
            + deps_section_markup(repo, deps_path) + "</div>"@,
        repo.dependencies.len() == 0 ==> detail_markup(repo, github_url, deps_path)
            == "<div class=\"repo-detail\">"@ + repo_info_markup(repo, github_url)
            + pipelines_section_markup(repo.pipelines) + "</div>"@,
        repo.dependencies.len() == 0 ==> detail_markup(repo, github_url, deps_path)
            == detail_markup(repo, github_url, other_path),
{
}

/// The repository's information opens no table tag.
proof fn lemma_repo_info_opens_no_table(repo: RepoSummaryView, github_url: Seq<char>)
    ensures
        opens_no_tag(repo_info_markup(repo, github_url), 't'),
{
    reveal_strlit("<div class=\"repo-info\"><a href=\"");
    reveal_strlit("\" target=\"_blank\" class=\"repo-github-link\">\u{f0}\u{178}\u{201d}\u{2014} ");
    reveal_strlit("</a><p class=\"repo-description\">");
    reveal_strlit("</p></div>");
    lemma_escaped_opens_no_tag(github_url, 't');
    lemma_escaped_opens_no_tag(repo.description, 't');
}

/// The dependencies section opens no table tag.
proof fn lemma_deps_section_opens_no_table(repo: RepoSummaryView, deps_path: Seq<char>)
    ensures
        opens_no_tag(deps_section_markup(repo, deps_path), 't'),
{
    if repo.dependencies.len() > 0 {
        reveal_strlit("<div class=\"deps-section\" x-data=\"");
        reveal_strlit(
            "\"><h3 class=\"deps-header\" x-bind:class=\"{ 'expanded': expanded }\" x-on:click=\"toggle()\"><span class=\"deps-expand-arrow\">\u{e2}\u{2013}\u{b6}</span> Dependencies (",
        );
        reveal_strlit(")</h3><div x-show=\"expanded\" x-cloak id=\"");
        reveal_strlit("\" class=\"deps-list\"></div></div>");
        let id = deps_list_id_text(repo.owner, repo.repo);
        lemma_escaped_opens_no_tag(expandable_directive_text(deps_path, id), 't');
        lemma_escaped_opens_no_tag(id, 't');
        lemma_decimal_nat_plain(repo.dependencies.len());
    }
}

/// The detail fragment of a record without pipeline runs holds no table: whatever
/// the record's texts are, nowhere in the fragment does a tag open whose name
/// begins with `t`.
pub proof fn lemma_no_pipelines_no_table(
    repo: RepoSummaryView,
    github_url: Seq<char>,
    deps_path: Seq<char>,
)
    requires
        repo.pipelines.len() == 0,
    ensures
        opens_no_tag(detail_markup(repo, github_url, deps_path), 't'),
{
    reveal_strlit("<div class=\"repo-detail\">");
    reveal_strlit("</div>");
    lemma_repo_info_opens_no_table(repo, github_url);
    lemma_deps_section_opens_no_table(repo, deps_path);
}

/// Renders the link to the repository's page and its description.
fn repo_info(repo: &RepoSummary, github_url: &str) -> (markup: String)
    ensures
        markup@ == repo_info_markup(repo@, github_url@),
{
    let mut markup = "<div class=\"repo-info\"><a href=\"".to_owned();
    push_escaped(&mut markup, github_url);
    markup.append("\" target=\"_blank\" class=\"repo-github-link\">\u{f0}\u{178}\u{201d}\u{2014} ");
    push_escaped(&mut markup, github_url);
    markup.append("</a><p class=\"repo-description\">");
    push_escaped(&mut markup, repo.description.as_str());
    markup.append("</p></div>");
    markup
}

/// Renders one row of the pipelines table.
fn pipeline_row(pipeline: &PipelineSummary) -> (markup: String)
    ensures
        markup@ == pipeline_row_markup(pipeline@),
{
    let badge = status_badge(pipeline.status);
    let time = format_duration(pipeline.run_time);
    let mut markup = "<tr><td>".to_owned();
    push_escaped(&mut markup, pipeline.name.as_str());
    markup.append("</td><td>");
    markup.append(badge.as_str());
    markup.append("</td><td class=\"pipeline-time\">");
    push_escaped(&mut markup, time.as_str());
    proof {
        lemma_duration_text_plain(pipeline.run_time);
    }
    markup.append("</td><td><a href=\"");
    push_escaped(&mut markup, pipeline.github_url.as_str());
    markup.append("\" target=\"_blank\" class=\"pipeline-link\">View</a></td></tr>");
    markup
}

/// Renders the pipelines section.
fn pipelines_section(pipelines: &Vec<PipelineSummary>) -> (markup: String)
    ensures
        markup@ == pipelines_section_markup(pipeline_views(pipelines@)),
{
    let ghost views = pipeline_views(pipelines@);
    if pipelines.len() == 0 {
        return String::new();
    }
    let mut markup =
        "<div class=\"pipelines-section\"><h3>Pipelines</h3><table class=\"pipelines-table\"><thead><tr><th>Name</th><th>Status</th><th>Duration</th><th>Link</th></tr></thead><tbody>".to_owned();
    let ghost head = markup@;
    let mut i: usize = 0;
    while i < pipelines.len()
        invariant
            i <= pipelines.len(),
            views == pipeline_views(pipelines@),
            markup@ == head + pipeline_rows_markup(views.take(i as int)),
        decreases pipelines.len() - i,
    {
        proof {
            assert(views.take(i + 1).drop_last() =~= views.take(i as int));
        }
        let row = pipeline_row(&pipelines[i]);
        markup.append(row.as_str());
        i = i + 1;
    }
    assert(views.take(i as int) =~= views);
    markup.append("</tbody></table></div>");
    markup
}

/// Renders the dependencies section.
fn deps_section(repo: &RepoSummary, deps_path: &str) -> (markup: String)
    ensures
        markup@ == deps_section_markup(repo@, deps_path@),
{
    if repo.dependencies.len() == 0 {
        return String::new();
    }
    let mut deps_list_id = "deps-list-".to_owned();
    deps_list_id.append(repo.owner.as_str());
    deps_list_id.append("-");
    deps_list_id.append(repo.repo.as_str());
    let directive = expandable_directive(deps_path, deps_list_id.as_str());
    let count = decimal_string(repo.dependencies.len() as u64);
    let mut markup = "<div class=\"deps-section\" x-data=\"".to_owned();
    push_escaped(&mut markup, directive.as_str());
    markup.append(
        "\"><h3 class=\"deps-header\" x-bind:class=\"{ 'expanded': expanded }\" x-on:click=\"toggle()\"><span class=\"deps-expand-arrow\">\u{e2}\u{2013}\u{b6}</span> Dependencies (",
    );
    markup.append(count.as_str());
    markup.append(")</h3><div x-show=\"expanded\" x-cloak id=\"");
    push_escaped(&mut markup, deps_list_id.as_str());
    markup.append("\" class=\"deps-list\"></div></div>");
    markup
}

/// Renders the detail fragment of `repo` with `github_url` as the address of its
/// page and `deps_path` as the path from which its dependency list loads. A record
/// without dependencies has no use for `deps_path`.
pub fn render_repo_detail_with(repo: &RepoSummary, github_url: &str, deps_path: &str) -> (markup:
    String)
    ensures
        markup@ == detail_markup(repo@, github_url@, deps_path@),
{
    let info = repo_info(repo, github_url);
    let pipelines = pipelines_section(&repo.pipelines);
    let deps = deps_section(repo, deps_path);
    let mut markup = "<div class=\"repo-detail\">".to_owned();
    markup.append(info.as_str());
    markup.append(pipelines.as_str());
    markup.append(deps.as_str());
    markup.append("</div>");
    markup
}

/// Renders the detail fragment of `repo`. Fails where the address of its page or,
/// for a record with dependencies, the path of its dependency list cannot be built.
pub fn render_repo_detail(repo: &RepoSummary) -> (markup: Result<String, LinkError>)
    ensures
        built_text(markup) == repo_detail_markup(repo@),
{
    let github_url = match repo.github_url() {
        Ok(url) => url,
        Err(e) => {
            return Err(e);
        },
    };
    if repo.dependencies.len() == 0 {
        return Ok(render_repo_detail_with(repo, github_url.as_str(), ""));
    }
    match repo_deps_url(repo.owner.as_str(), repo.repo.as_str()) {
        Ok(deps_path) => Ok(render_repo_detail_with(repo, github_url.as_str(), deps_path.as_str())),
        Err(e) => Err(e),
    }
}

} // verus!
