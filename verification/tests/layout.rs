use hubdash::landing::landing_page;
use hubdash::layout::{base_layout, check_icon};

#[test]
fn check_icon_yes() {
    assert_eq!(check_icon(true), "<span class=\"check-icon check-yes\">\u{2713}</span>");
}

#[test]
fn check_icon_no() {
    assert_eq!(check_icon(false), "<span class=\"check-icon check-no\">\u{2717}</span>");
}

#[test]
fn layout_without_styles_and_scripts() {
    let page = base_layout("T", &[], &[], "<p>hi</p>");
    let expected = concat_all(&[
        "<!DOCTYPE html>",
        "<html lang=\"en\">",
        "<head>",
        "<meta charset=\"utf-8\">",
        "<meta name=\"viewport\" content=\"width=device-width, initial-scale=1\">",
        "<title>T</title>",
        "<script src=\"https://unpkg.com/htmx.org@2.0.4\"></script>",
        "<script defer src=\"https://unpkg.com/alpinejs@3.14.8/dist/cdn.min.js\"></script>",
        "</head>",
        "<body><p>hi</p></body>",
        "</html>",
    ]);
    assert_eq!(page, expected);
}

#[test]
fn layout_links_styles_then_scripts_in_order() {
    let page = base_layout("Page", &["/a.css", "/b.css"], &["/x.js", "/y.js"], "");
    let expected = concat_all(&[
        "<!DOCTYPE html><html lang=\"en\"><head>",
        "<meta charset=\"utf-8\">",
        "<meta name=\"viewport\" content=\"width=device-width, initial-scale=1\">",
        "<title>Page</title>",
        "<link rel=\"stylesheet\" href=\"/a.css\">",
        "<link rel=\"stylesheet\" href=\"/b.css\">",
        "<script src=\"https://unpkg.com/htmx.org@2.0.4\"></script>",
        "<script src=\"/x.js\"></script>",
        "<script src=\"/y.js\"></script>",
        "<script defer src=\"https://unpkg.com/alpinejs@3.14.8/dist/cdn.min.js\"></script>",
        "</head><body></body></html>",
    ]);
    assert_eq!(page, expected);
}

#[test]
fn layout_escapes_title_and_paths_but_not_the_body() {
    let page = base_layout("a<b & \"c\"", &["/s.css?a=1&b=2"], &["/\"q\".js"], "<b>&amp;</b>");
    assert!(page.contains("<title>a&lt;b &amp; &quot;c&quot;</title>"));
    assert!(page.contains("<link rel=\"stylesheet\" href=\"/s.css?a=1&amp;b=2\">"));
    assert!(page.contains("<script src=\"/&quot;q&quot;.js\"></script>"));
    assert!(page.contains("<body><b>&amp;</b></body>"));
}

#[test]
fn landing_page_markup() {
    let expected = concat_all(&[
        "<!DOCTYPE html><html lang=\"en\"><head>",
        "<meta charset=\"utf-8\">",
        "<meta name=\"viewport\" content=\"width=device-width, initial-scale=1\">",
        "<title>Hubdash</title>",
        "<link rel=\"stylesheet\" href=\"/assets/theme.css\">",
        "<link rel=\"stylesheet\" href=\"/assets/landing.css\">",
        "<script src=\"https://unpkg.com/htmx.org@2.0.4\"></script>",
        "<script defer src=\"https://unpkg.com/alpinejs@3.14.8/dist/cdn.min.js\"></script>",
        "</head><body>",
        "<div class=\"container\">",
        "<h1>Hubdash</h1>",
        "<p>Monitor your GitHub repositories' CI/CD pipeline health and dependency freshness in one place.</p>",
        "<a href=\"/auth/signin\" class=\"sign-in-btn\">Sign in with GitHub</a>",
        "</div>",
        "</body></html>",
    ]);
    assert_eq!(landing_page(), expected);
}

#[test]
fn landing_page_is_the_same_each_time() {
    assert_eq!(landing_page(), landing_page());
}

fn concat_all(parts: &[&str]) -> String {
    let mut all = String::new();
    for part in parts {
        all.push_str(part);
    }
    all
}
