//! The summary row of a repository in the index table.

use vstd::prelude::*;
use vstd::string::StringExecFns;
use crate::escape::{escaped, push_escaped};
use crate::layout::{check_icon, check_icon_markup};
use crate::links::{
    built_text, expandable_directive, expandable_directive_text, repo_expand_path,
    repo_expand_url, LinkError,
};
use crate::metrics::{deps_rate, freshness_rate, rate_class, rate_class_text};
use crate::record::{RepoSummary, RepoSummaryView};
use crate::status::{status_badge, status_badge_markup};
use crate::text::{decimal_nat, decimal_string};
use crate::triggers::Trigger;

verus! {

/// The identifier of the element that takes the detail fragment of a repository.
pub open spec fn detail_id_text(owner: Seq<char>, repo: Seq<char>) -> Seq<char> {
    "detail-"@ + owner + "-"@ + repo
}

/// The cell with the success rate, in the style of its tier.
pub open spec fn success_cell_markup(success_rate: nat) -> Seq<char> {
    "<td class=\"success-rate\"><span class=\""@ + rate_class_text(success_rate as int) + "\">"@
        + decimal_nat(success_rate) + "%</span></td>"@
}

/// The cell that says whether a trigger is among the triggers of a repository.
pub open spec fn trigger_cell_markup(checked: bool) -> Seq<char> {
    "<td class=\"trigger-checks\">"@ + check_icon_markup(checked) + "</td>"@
}

/// The four trigger cells: runs on main, on pull requests, on a schedule, by hand.
pub open spec fn trigger_cells_markup(triggers: Set<Trigger>) -> Seq<char> {
    trigger_cell_markup(triggers.contains(Trigger::Main)) + trigger_cell_markup(
        triggers.contains(Trigger::PullRequest),
    ) + trigger_cell_markup(triggers.contains(Trigger::Scheduled)) + trigger_cell_markup(
        triggers.contains(Trigger::Manual),
    )
}

/// The two dependency cells: the number of dependencies, and the number of those
/// up to date in the style of the tier of the freshness rate.
pub open spec fn deps_cells_markup(deps_total: nat, deps_up_to_date: nat) -> Seq<char> {
    "<td class=\"deps-total\">"@ + decimal_nat(deps_total)
        + "</td><td class=\"deps-current\"><span class=\""@ + rate_class_text(
        freshness_rate(deps_up_to_date as int, deps_total as int),
    ) + "\">"@ + decimal_nat(deps_up_to_date) + "</span></td>"@
}

/// The row that is always shown: the arrow, the full name, the success rate, the
/// last status, the triggers and the dependency counts. A click toggles the unit.
pub open spec fn summary_row_markup(repo: RepoSummaryView) -> Seq<char> {
    "<tr class=\"repo-row\" x-bind:class=\"{ 'expanded': expanded }\" x-on:click=\"toggle()\"><td class=\"expand-cell\"><span class=\"expand-arrow\">\u{e2}\u{2013}\u{b6}</span></td><td class=\"repo-name\">"@
        + escaped(repo.full_name()) + "</td>"@ + success_cell_markup(repo.success_rate)
        + "<td class=\"last-status\">"@ + status_badge_markup(repo.last_status) + "</td>"@
        + trigger_cells_markup(repo.triggers) + deps_cells_markup(
        repo.deps_total,
        repo.deps_up_to_date,
    ) + "</tr>"@
}

/// The row that is shown while the unit is expanded: it spans the table and holds
/// the empty element, of identifier `detail_id`, that takes the detail fragment.
pub open spec fn detail_row_markup(detail_id: Seq<char>) -> Seq<char> {
    "<tr class=\"repo-detail-row\" x-show=\"expanded\" x-cloak><td colspan=\"10\" class=\"repo-detail-cell\"><div id=\""@
        + escaped(detail_id) + "\"></div></td></tr>"@
}

/// The markup of the row of `repo`, which loads its detail from `expand_path`: a
/// table body that is one expandable unit, with the summary row and the row of
/// the detail. The unit names `expand_path` and the identifier of the element
/// that takes what is loaded.
pub open spec fn row_markup(repo: RepoSummaryView, expand_path: Seq<char>) -> Seq<char> {
    "<tbody x-data=\""@ + escaped(
        expandable_directive_text(expand_path, detail_id_text(repo.owner, repo.repo)),
    ) + "\">"@ + summary_row_markup(repo) + detail_row_markup(
        detail_id_text(repo.owner, repo.repo),
    ) + "</tbody>"@
}

/// The markup of the row of `repo`, or the reason why the path of its detail
/// fragment could not be built.
pub open spec fn repo_row_markup(repo: RepoSummaryView) -> Result<Seq<char>, LinkError> {
    match repo_expand_path(repo.owner, repo.repo) {
        Ok(path) => Ok(row_markup(repo, path)),
        Err(e) => Err(e),
    }
}

/// Renders the cell with the success rate.
fn success_cell(success_rate: u8) -> (markup: String)
    ensures
        markup@ == success_cell_markup(success_rate as nat),
{
    let rate = decimal_string(success_rate as u64);
    let mut markup = "<td class=\"success-rate\"><span class=\"".to_owned();
    markup.append(rate_class(success_rate));
    markup.append("\">");
    markup.append(rate.as_str());
    markup.append("%</span></td>");
    markup
}

/// Renders one trigger cell.
fn trigger_cell(checked: bool) -> (markup: String)
    ensures
        markup@ == trigger_cell_markup(checked),
{
    let icon = check_icon(checked);
    let mut markup = "<td class=\"trigger-checks\">".to_owned();
    markup.append(icon.as_str());
    markup.append("</td>");
    markup
}

/// Renders the four trigger cells.
fn trigger_cells(repo: &RepoSummary) -> (markup: String)
    ensures
        markup@ == trigger_cells_markup(repo@.triggers),
{
    let mut markup = trigger_cell(repo.runs_on_main());
    let on_pr = trigger_cell(repo.runs_on_pr());
    markup.append(on_pr.as_str());
    let scheduled = trigger_cell(repo.runs_scheduled());
    markup.append(scheduled.as_str());
    let manual = trigger_cell(repo.runs_manual());
    markup.append(manual.as_str());
    markup
}

/// Renders the two dependency cells.
fn deps_cells(deps_total: u32, deps_up_to_date: u32) -> (markup: String)
    requires
        deps_up_to_date <= deps_total,
    ensures
        markup@ == deps_cells_markup(deps_total as nat, deps_up_to_date as nat),
{
    let dep_rate = deps_rate(deps_up_to_date, deps_total);
    let total = decimal_string(deps_total as u64);
    let current = decimal_string(deps_up_to_date as u64);
    let mut markup = "<td class=\"deps-total\">".to_owned();
    markup.append(total.as_str());
    markup.append("</td><td class=\"deps-current\"><span class=\"");
    markup.append(rate_class(dep_rate));
    markup.append("\">");
    markup.append(current.as_str());
    markup.append("</span></td>");
    markup
}

/// Renders the row that is always shown.
fn summary_row(repo: &RepoSummary) -> (markup: String)
    requires
        repo.wf(),
    ensures
        markup@ == summary_row_markup(repo@),
{
    let full_name = repo.full_name();
    let success = success_cell(repo.success_rate);
    let badge = status_badge(repo.last_status);
    let triggers = trigger_cells(repo);
    let deps = deps_cells(repo.deps_total, repo.deps_up_to_date);
    let mut markup =
        "<tr class=\"repo-row\" x-bind:class=\"{ 'expanded': expanded }\" x-on:click=\"toggle()\"><td class=\"expand-cell\"><span class=\"expand-arrow\">\u{e2}\u{2013}\u{b6}</span></td><td class=\"repo-name\">".to_owned();
    push_escaped(&mut markup, full_name.as_str());
    markup.append("</td>");
    markup.append(success.as_str());
    markup.append("<td class=\"last-status\">");
    markup.append(badge.as_str());
    markup.append("</td>");
    markup.append(triggers.as_str());
    markup.append(deps.as_str());
    markup.append("</tr>");
    markup
}

/// Renders the row that holds the element for the detail.
fn detail_row(detail_id: &str) -> (markup: String)
    ensures
        markup@ == detail_row_markup(detail_id@),
{
    let mut markup =
        "<tr class=\"repo-detail-row\" x-show=\"expanded\" x-cloak><td colspan=\"10\" class=\"repo-detail-cell\"><div id=\"".to_owned();
    push_escaped(&mut markup, detail_id);
    markup.append("\"></div></td></tr>");
    markup
}

/// Renders the row of `repo` with `expand_path` as the path from which the row
/// loads its detail fragment.
pub fn repo_row_with(repo: &RepoSummary, expand_path: &str) -> (markup: String)
    requires
        repo.wf(),
    ensures
        markup@ == row_markup(repo@, expand_path@),
{
    let mut detail_id = "detail-".to_owned();
    detail_id.append(repo.owner.as_str());
    detail_id.append("-");
    detail_id.append(repo.repo.as_str());
    let directive = expandable_directive(expand_path, detail_id.as_str());
    let summary = summary_row(repo);
    let detail = detail_row(detail_id.as_str());
    let mut markup = "<tbody x-data=\"".to_owned();
    push_escaped(&mut markup, directive.as_str());
    markup.append("\">");
    markup.append(summary.as_str());
    markup.append(detail.as_str());
    markup.append("</tbody>");
    markup
}

/// Renders the row of `repo`. Fails where the path of the detail fragment cannot
/// be built.
pub fn repo_row(repo: &RepoSummary) -> (markup: Result<String, LinkError>)
    requires
        repo.wf(),
    ensures
        built_text(markup) == repo_row_markup(repo@),
{
    match repo_expand_url(repo.owner.as_str(), repo.repo.as_str()) {
        Ok(path) => Ok(repo_row_with(repo, path.as_str())),
        Err(e) => Err(e),
    }
}

} // verus!
