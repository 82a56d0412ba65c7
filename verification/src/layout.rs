//! Shared layout components: the page shell and the yes/no icon.

use vstd::prelude::*;
use vstd::string::StringExecFns;
use crate::escape::{escaped, push_escaped};
use crate::links::segment_texts;

verus! {

/// The markup of a yes/no icon.
pub open spec fn check_icon_markup(checked: bool) -> Seq<char> {
    if checked {
        "<span class=\"check-icon check-yes\">\u{2713}</span>"@
    } else {
        "<span class=\"check-icon check-no\">\u{2717}</span>"@
    }
}

/// The markup that links one stylesheet.
pub open spec fn stylesheet_markup(path: Seq<char>) -> Seq<char> {
    "<link rel=\"stylesheet\" href=\""@ + escaped(path) + "\">"@
}

/// The markup that links the stylesheets at `paths`, in order.
pub open spec fn stylesheets_markup(paths: Seq<Seq<char>>) -> Seq<char>
    decreases paths.len(),
{
    if paths.len() == 0 {
        Seq::empty()
    } else {
        stylesheets_markup(paths.drop_last()) + stylesheet_markup(paths.last())
    }
}

/// The markup that loads one script.
pub open spec fn script_markup(path: Seq<char>) -> Seq<char> {
    "<script src=\""@ + escaped(path) + "\"></script>"@
}

/// The markup that loads the scripts at `paths`, in order.
pub open spec fn scripts_markup(paths: Seq<Seq<char>>) -> Seq<char>
    decreases paths.len(),
{
    if paths.len() == 0 {
        Seq::empty()
    } else {
        scripts_markup(paths.drop_last()) + script_markup(paths.last())
    }
}

/// The markup of a whole page: the document head with the title, the page's
/// stylesheets, the request library, the page's scripts and the reactive library,
/// then `body` as it is.
pub open spec fn page_markup(
    title: Seq<char>,
    styles: Seq<Seq<char>>,
    scripts: Seq<Seq<char>>,
    body: Seq<char>,
) -> Seq<char> {
    "<!DOCTYPE html><html lang=\"en\"><head><meta charset=\"utf-8\"><meta name=\"viewport\" content=\"width=device-width, initial-scale=1\"><title>"@
        + escaped(title) + "</title>"@ + stylesheets_markup(styles)
        + "<script src=\"https://unpkg.com/htmx.org@2.0.4\"></script>"@ + scripts_markup(scripts)
        + "<script defer src=\"https://unpkg.com/alpinejs@3.14.8/dist/cdn.min.js\"></script></head><body>"@
        + body + "</body></html>"@
}

/// Renders a checkmark or X icon based on a boolean value.
pub fn check_icon(checked: bool) -> (markup: String)
    ensures
        markup@ == check_icon_markup(checked),
{
    if checked {
        "<span class=\"check-icon check-yes\">\u{2713}</span>".to_owned()
    } else {
        "<span class=\"check-icon check-no\">\u{2717}</span>".to_owned()
    }
}

/// Renders the links to the stylesheets at `paths`.
fn stylesheets(paths: &[&str]) -> (markup: String)
    ensures
        markup@ == stylesheets_markup(segment_texts(paths@)),
{
    let ghost texts = segment_texts(paths@);
    let mut markup = String::new();
    let mut i: usize = 0;
    while i < paths.len()
        invariant
            i <= paths.len(),
            texts == segment_texts(paths@),
            markup@ == stylesheets_markup(texts.take(i as int)),
        decreases paths.len() - i,
    {
        proof {
            assert(texts.take(i + 1).drop_last() =~= texts.take(i as int));
        }
        markup.append("<link rel=\"stylesheet\" href=\"");
        push_escaped(&mut markup, paths[i]);
        markup.append("\">");
        i = i + 1;
    }
    assert(texts.take(i as int) =~= texts);
    markup
}

/// Renders the tags that load the scripts at `paths`.
fn script_tags(paths: &[&str]) -> (markup: String)
    ensures
        markup@ == scripts_markup(segment_texts(paths@)),
{
    let ghost texts = segment_texts(paths@);
    let mut markup = String::new();
    let mut i: usize = 0;
    while i < paths.len()
        invariant
            i <= paths.len(),
            texts == segment_texts(paths@),
            markup@ == scripts_markup(texts.take(i as int)),
        decreases paths.len() - i,
    {
        proof {
            assert(texts.take(i + 1).drop_last() =~= texts.take(i as int));
        }
        markup.append("<script src=\"");
        push_escaped(&mut markup, paths[i]);
        markup.append("\"></script>");
        i = i + 1;
    }
    assert(texts.take(i as int) =~= texts);
    markup
}

/// Renders the base HTML layout with common head elements. The title and the
/// paths are escaped; `body` is markup and is written as it is.
pub fn base_layout(title: &str, styles: &[&str], scripts: &[&str], body: &str) -> (markup: String)
    ensures
        markup@ == page_markup(title@, segment_texts(styles@), segment_texts(scripts@), body@),
{
    let mut markup =
        "<!DOCTYPE html><html lang=\"en\"><head><meta charset=\"utf-8\"><meta name=\"viewport\" content=\"width=device-width, initial-scale=1\"><title>".to_owned();
    push_escaped(&mut markup, title);
    markup.append("</title>");
    let links = stylesheets(styles);
    markup.append(links.as_str());
    markup.append("<script src=\"https://unpkg.com/htmx.org@2.0.4\"></script>");
    let tags = script_tags(scripts);
    markup.append(tags.as_str());
    markup.append(
        "<script defer src=\"https://unpkg.com/alpinejs@3.14.8/dist/cdn.min.js\"></script></head><body>",
    );
    markup.append(body);
    markup.append("</body></html>");
    markup
}

} // verus!
