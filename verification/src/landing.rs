//! Landing page for the Hubdash application.

use vstd::prelude::*;
use crate::layout::{base_layout, page_markup};
use crate::links::segment_texts;

verus! {

/// The markup of the landing page: the name, what the dashboard is for, and the
/// link to sign in.
pub open spec fn landing_markup() -> Seq<char> {
    page_markup(
        "Hubdash"@,
        seq!["/assets/theme.css"@, "/assets/landing.css"@],
        Seq::empty(),
        "<div class=\"container\"><h1>Hubdash</h1><p>Monitor your GitHub repositories' CI/CD pipeline health and dependency freshness in one place.</p><a href=\"/auth/signin\" class=\"sign-in-btn\">Sign in with GitHub</a></div>"@,
    )
}

/// Renders the landing page.
pub fn landing_page() -> (markup: String)
    ensures
        markup@ == landing_markup(),
{
    let styles = ["/assets/theme.css", "/assets/landing.css"];
    let scripts: [&str; 0] = [];
    assert(segment_texts(styles@) =~= seq!["/assets/theme.css"@, "/assets/landing.css"@]);
    base_layout(
        "Hubdash",
        &styles,
        &scripts,
        "<div class=\"container\"><h1>Hubdash</h1><p>Monitor your GitHub repositories' CI/CD pipeline health and dependency freshness in one place.</p><a href=\"/auth/signin\" class=\"sign-in-btn\">Sign in with GitHub</a></div>",
    )
}

} // verus!
