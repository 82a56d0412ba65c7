//! The dependency list of a repository: its order and its markup.

use vstd::prelude::*;
use vstd::string::StringExecFns;
use crate::escape::{escaped, push_escaped};
use crate::record::{dependency_views, Dependency, DependencyView, RepoSummary, RepoSummaryView};

verus! {

/// The dependencies of `deps` whose outdated flag is `outdated`, in the order in
/// which they stand in `deps`.
pub open spec fn deps_flagged(deps: Seq<DependencyView>, outdated: bool) -> Seq<DependencyView>
    decreases deps.len(),
{
    if deps.len() == 0 {
        Seq::empty()
    } else if deps.last().is_outdated == outdated {
        deps_flagged(deps.drop_last(), outdated).push(deps.last())
    } else {
        deps_flagged(deps.drop_last(), outdated)
    }
}

/// The order in which dependencies are listed: the outdated ones, then the current
/// ones, each group in the order of the source.
pub open spec fn outdated_first(deps: Seq<DependencyView>) -> Seq<DependencyView> {
    deps_flagged(deps, true) + deps_flagged(deps, false)
}

/// The markup of one row of the dependency table.
pub open spec fn dep_row_markup(dep: DependencyView) -> Seq<char> {
    if dep.is_outdated {
        "<tr class=\"dep-outdated\"><td>"@ + escaped(dep.name) + "</td><td class=\"version\">"@
            + escaped(dep.current_version) + "</td><td class=\"version\">"@ + escaped(
            dep.latest_version,
        ) + "</td><td><span class=\"dep-status outdated\">Outdated</span></td></tr>"@
    } else {
        "<tr class=\"dep-current\"><td>"@ + escaped(dep.name) + "</td><td class=\"version\">"@
            + escaped(dep.current_version) + "</td><td class=\"version\">"@ + escaped(
            dep.latest_version,
        ) + "</td><td><span class=\"dep-status current\">Current</span></td></tr>"@
    }
}

/// The markup of the rows of `deps`, in order.
pub open spec fn dep_rows_markup(deps: Seq<DependencyView>) -> Seq<char>
    decreases deps.len(),
{
    if deps.len() == 0 {
        Seq::empty()
    } else {
        dep_rows_markup(deps.drop_last()) + dep_row_markup(deps.last())
    }
}

/// The markup of the dependency list of a repository: a table with one row for
/// each dependency, the outdated ones first.
pub open spec fn deps_list_markup(repo: RepoSummaryView) -> Seq<char> {
    "<table class=\"deps-table\"><thead><tr><th>Package</th><th>Current</th><th>Latest</th><th>Status</th></tr></thead><tbody>"@
        + dep_rows_markup(outdated_first(repo.dependencies)) + "</tbody></table>"@
}

/// Every dependency of `deps_flagged(deps, outdated)` carries the flag `outdated`,
/// and the two flags share the dependencies of `deps` between them.
pub proof fn lemma_deps_flagged_flag(deps: Seq<DependencyView>, outdated: bool)
    ensures
        deps_flagged(deps, true).len() + deps_flagged(deps, false).len() == deps.len(),
        forall|i: int|
            0 <= i < deps_flagged(deps, outdated).len() ==> (#[trigger] deps_flagged(
                deps,
                outdated,
            )[i]).is_outdated == outdated,
    decreases deps.len(),
{
    if deps.len() > 0 {
        lemma_deps_flagged_flag(deps.drop_last(), outdated);
    }
}

/// Selecting by flag distributes over concatenation.
pub proof fn lemma_deps_flagged_concat(a: Seq<DependencyView>, b: Seq<DependencyView>, outdated: bool)
    ensures
        deps_flagged(a + b, outdated) == deps_flagged(a, outdated) + deps_flagged(b, outdated),
    decreases b.len(),
{
    if b.len() > 0 {
        lemma_deps_flagged_concat(a, b.drop_last(), outdated);
        assert((a + b).drop_last() =~= a + b.drop_last());
    }
}

/// Selecting by a flag from a list whose dependencies all carry `flag` gives the
/// whole list for that flag and nothing for the other.
pub proof fn lemma_deps_flagged_uniform(deps: Seq<DependencyView>, flag: bool)
    requires
        forall|i: int| 0 <= i < deps.len() ==> (#[trigger] deps[i]).is_outdated == flag,
    ensures
        deps_flagged(deps, flag) == deps,
        deps_flagged(deps, !flag) == Seq::<DependencyView>::empty(),
    decreases deps.len(),
{
    if deps.len() > 0 {
        lemma_deps_flagged_uniform(deps.drop_last(), flag);
    }
}

/// The listed order is a partition: up to some position every dependency is
/// outdated, from it on every dependency is current.
pub proof fn lemma_outdated_first_partitions(deps: Seq<DependencyView>)
    ensures
        outdated_first(deps).len() == deps.len(),
        forall|i: int, j: int|
            0 <= i < j < deps.len() && (#[trigger] outdated_first(deps)[j]).is_outdated ==> (
            #[trigger] outdated_first(deps)[i]).is_outdated,
{
    lemma_deps_flagged_flag(deps, true);
    lemma_deps_flagged_flag(deps, false);
}

/// The listed order holds the dependencies of the source, each as often as the
/// source does.
pub proof fn lemma_outdated_first_permutes(deps: Seq<DependencyView>)
    ensures
        outdated_first(deps).to_multiset() == deps.to_multiset(),
    decreases deps.len(),
{
    broadcast use vstd::seq_lib::group_to_multiset_ensures;

    if deps.len() > 0 {
        let before = deps.drop_last();
        let last = deps.last();
        lemma_outdated_first_permutes(before);
        assert(before.push(last) =~= deps);
        let kept = deps_flagged(before, true);
        let rest = deps_flagged(before, false);
        if last.is_outdated {
            vstd::seq_lib::lemma_multiset_commutative(kept.push(last), rest);
            vstd::seq_lib::lemma_multiset_commutative(kept, rest);
        } else {
            assert(outdated_first(deps) =~= (kept + rest).push(last));
        }
    }
}

/// The listed order is stable: the outdated dependencies stand in it in the order
/// of the source, and so do the current ones. Listing a list that is already in
/// listed order changes nothing.
pub proof fn lemma_outdated_first_stable(deps: Seq<DependencyView>)
    ensures
        deps_flagged(outdated_first(deps), true) == deps_flagged(deps, true),
        deps_flagged(outdated_first(deps), false) == deps_flagged(deps, false),
        outdated_first(outdated_first(deps)) == outdated_first(deps),
{
    let kept = deps_flagged(deps, true);
    let rest = deps_flagged(deps, false);
    lemma_deps_flagged_flag(deps, true);
    lemma_deps_flagged_flag(deps, false);
    lemma_deps_flagged_uniform(kept, true);
    lemma_deps_flagged_uniform(rest, false);
    lemma_deps_flagged_concat(kept, rest, true);
    lemma_deps_flagged_concat(kept, rest, false);
}

/// Appends to `sorted` copies of the dependencies of `deps` whose flag is
/// `outdated`, in their order.
fn push_flagged(sorted: &mut Vec<Dependency>, deps: &[Dependency], outdated: bool)
    ensures
        dependency_views(final(sorted)@) == dependency_views(old(sorted)@) + deps_flagged(
            dependency_views(deps@),
            outdated,
        ),
{
    let ghost before = dependency_views(sorted@);
    let ghost views = dependency_views(deps@);
    let mut i: usize = 0;
    while i < deps.len()
        invariant
            i <= deps.len(),
            views == dependency_views(deps@),
            dependency_views(sorted@) == before + deps_flagged(views.take(i as int), outdated),
        decreases deps.len() - i,
    {
        proof {
            assert(views.take(i + 1).drop_last() =~= views.take(i as int));
        }
        if deps[i].is_outdated == outdated {
            let ghost held = sorted@;
            sorted.push(deps[i].clone());
            assert(dependency_views(sorted@) =~= dependency_views(held).push(deps@[i as int]@));
        }
        i = i + 1;
    }
    assert(views.take(i as int) =~= views);
}

/// Returns the dependencies in the order in which they are listed: all outdated
/// entries before all current ones, each group in its order in `deps`.
pub fn get_sorted_dependencies(deps: &[Dependency]) -> (sorted: Vec<Dependency>)
    ensures
        dependency_views(sorted@) == outdated_first(dependency_views(deps@)),
{
    let mut sorted: Vec<Dependency> = Vec::new();
    push_flagged(&mut sorted, deps, true);
    push_flagged(&mut sorted, deps, false);
    sorted
}

/// Renders one row of the dependency table.
fn dep_row(dep: &Dependency) -> (markup: String)
    ensures
        markup@ == dep_row_markup(dep@),
{
    let mut markup = if dep.is_outdated {
        "<tr class=\"dep-outdated\"><td>".to_owned()
    } else {
        "<tr class=\"dep-current\"><td>".to_owned()
    };
    push_escaped(&mut markup, dep.name.as_str());
    markup.append("</td><td class=\"version\">");
    push_escaped(&mut markup, dep.current_version.as_str());
    markup.append("</td><td class=\"version\">");
    push_escaped(&mut markup, dep.latest_version.as_str());
    if dep.is_outdated {
        markup.append("</td><td><span class=\"dep-status outdated\">Outdated</span></td></tr>");
    } else {
        markup.append("</td><td><span class=\"dep-status current\">Current</span></td></tr>");
    }
    markup
}

/// Renders the dependency list of `repo`.
pub fn render_deps_list(repo: &RepoSummary) -> (markup: String)
    ensures
        markup@ == deps_list_markup(repo@),
{
    let deps = get_sorted_dependencies(repo.dependencies.as_slice());
    let ghost views = dependency_views(deps@);
    let mut markup =
        "<table class=\"deps-table\"><thead><tr><th>Package</th><th>Current</th><th>Latest</th><th>Status</th></tr></thead><tbody>".to_owned();
    let ghost head = markup@;
    let mut i: usize = 0;
    while i < deps.len()
        invariant
            i <= deps.len(),
            views == dependency_views(deps@),
            markup@ == head + dep_rows_markup(views.take(i as int)),
        decreases deps.len() - i,
    {
        proof {
            assert(views.take(i + 1).drop_last() =~= views.take(i as int));
        }
        let row = dep_row(&deps[i]);
        markup.append(row.as_str());
        i = i + 1;
    }
    assert(views.take(i as int) =~= views);
    markup.append("</tbody></table>");
    markup
}

} // verus!
