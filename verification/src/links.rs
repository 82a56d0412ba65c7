//! The addresses that the dashboard writes into its markup: the paths from which a
//! row loads its fragments, and the pages of a repository and of its pipeline runs
//! on the hosting site.
//!
//! Addresses are built by the `url` crate from a base and a list of path segments.
//! How it encodes a segment is its own business, so the text that comes out is
//! known here only by name: `url_with_segments`.

use vstd::prelude::*;
use vstd::string::StrSliceExecFns;
use vstd::string::StringExecFns;
use url::Url;
use crate::text::{decimal_nat, decimal_string};

verus! {

/// The URL that parsing `base` and then appending `segments` to its path gives:
/// its serialization and, second, its path. `None` where `base` is no URL or is
/// one without a path to append to.
pub uninterp spec fn url_with_segments(base: Seq<char>, segments: Seq<Seq<char>>) -> Option<
    (Seq<char>, Seq<char>),
>;

/// The number of characters up to which a base and its segments are handed to the
/// URL parser. A URL keeps its positions in 32 bits, and one character of input can
/// take up to twelve bytes of a serialization.
pub const MAX_URL_INPUT: usize = 0x1000_0000;

/// The characters of `segments`, counting one more for each segment.
pub open spec fn segments_len(segments: Seq<Seq<char>>) -> nat
    decreases segments.len(),
{
    if segments.len() == 0 {
        0
    } else {
        segments_len(segments.drop_last()) + segments.last().len() + 1
    }
}

/// Whether a base and its segments are short enough to be made into a URL.
pub open spec fn url_input_fits(base: Seq<char>, segments: Seq<Seq<char>>) -> bool {
    base.len() + segments_len(segments) <= MAX_URL_INPUT
}

/// The texts of a list of string slices.
pub open spec fn segment_texts(segments: Seq<&str>) -> Seq<Seq<char>> {
    segments.map_values(|s: &str| s@)
}

/// The texts of a serialization and a path that were built.
pub open spec fn url_texts(url: Option<(String, String)>) -> Option<(Seq<char>, Seq<char>)> {
    match url {
        Some((text, path)) => Some((text@, path@)),
        None => None,
    }
}

/// Why an address could not be built.
#[derive(Debug, Clone, Copy, PartialEq, Eq, Structural)]
pub enum LinkError {
    /// The base and the segments together are longer than `MAX_URL_INPUT`.
    TooLong,
    /// The `url` crate did not take the base for a URL with a path.
    Rejected,
}

/// The text of a string that was built, or the reason why it was not.
pub open spec fn built_text(s: Result<String, LinkError>) -> Result<Seq<char>, LinkError> {
    match s {
        Ok(s) => Ok(s@),
        Err(e) => Err(e),
    }
}

/// The serialization of `base` with `segments` appended to its path.
pub open spec fn extended_url(base: Seq<char>, segments: Seq<Seq<char>>) -> Result<
    Seq<char>,
    LinkError,
> {
    if !url_input_fits(base, segments) {
        Err(LinkError::TooLong)
    } else {
        match url_with_segments(base, segments) {
            Some(url) => Ok(url.0),
            None => Err(LinkError::Rejected),
        }
    }
}

/// The path of `base` with `segments` appended to it.
pub open spec fn extended_url_path(base: Seq<char>, segments: Seq<Seq<char>>) -> Result<
    Seq<char>,
    LinkError,
> {
    if !url_input_fits(base, segments) {
        Err(LinkError::TooLong)
    } else {
        match url_with_segments(base, segments) {
            Some(url) => Ok(url.1),
            None => Err(LinkError::Rejected),
        }
    }
}

/// Parses `base` with `Url::parse`, appends `segments` through
/// `Url::path_segments_mut` and `PathSegmentsMut::extend`, and returns the
/// serialization, `Url::as_str`, and the path, `Url::path`, of what it has then.
/// `None` stands for either error: `base` does not parse, or it is a URL that
/// cannot be a base. The result is a function of the arguments alone; the
/// contract gives it its name and says no more. The bound keeps the serialization
/// within the 32 bits in which `url` holds positions: beyond them
/// `PathSegmentsMut` panics.
#[verifier::external_body]
fn extend_url(base: &str, segments: &[&str]) -> (url: Option<(String, String)>)
    requires
        url_input_fits(base@, segment_texts(segments@)),
    ensures
        url_texts(url) == url_with_segments(base@, segment_texts(segments@)),
{
    let mut url = Url::parse(base).ok()?;
    url.path_segments_mut().ok()?.extend(segments.iter());
    Some((url.as_str().to_string(), url.path().to_string()))
}

/// A prefix of a list of segments is no longer than the list.
proof fn lemma_segments_len_prefix(segments: Seq<Seq<char>>, n: int)
    requires
        0 <= n <= segments.len(),
    ensures
        segments_len(segments.take(n)) <= segments_len(segments),
    decreases segments.len(),
{
    if n == segments.len() {
        assert(segments.take(n) =~= segments);
    } else {
        lemma_segments_len_prefix(segments.drop_last(), n);
        assert(segments.drop_last().take(n) =~= segments.take(n));
    }
}

/// Whether `base` and `segments` are short enough to be made into a URL.
fn input_fits(base: &str, segments: &[&str]) -> (fits: bool)
    ensures
        fits == url_input_fits(base@, segment_texts(segments@)),
{
    let ghost texts = segment_texts(segments@);
    let mut total: usize = base.unicode_len();
    if total > MAX_URL_INPUT {
        return false;
    }
    let mut i: usize = 0;
    while i < segments.len()
        invariant
            i <= segments.len(),
            texts == segment_texts(segments@),
            total == base@.len() + segments_len(texts.take(i as int)),
            total <= MAX_URL_INPUT,
        decreases segments.len() - i,
    {
        let n = segments[i].unicode_len();
        proof {
            assert(texts.take(i + 1).drop_last() =~= texts.take(i as int));
            lemma_segments_len_prefix(texts, i + 1);
        }
        if n >= MAX_URL_INPUT - total {
            return false;
        }
        total = total + n + 1;
        i = i + 1;
    }
    assert(texts.take(i as int) =~= texts);
    true
}

/// Builds the path of the URL `base` with `segments` appended to it. Fails where
/// the input is too long or the `url` crate does not take `base` for a URL with a
/// path.
pub fn build_path(base: &str, segments: &[&str]) -> (path: Result<String, LinkError>)
    ensures
        built_text(path) == extended_url_path(base@, segment_texts(segments@)),
{
    if !input_fits(base, segments) {
        return Err(LinkError::TooLong);
    }
    match extend_url(base, segments) {
        Some((_, path)) => Ok(path),
        None => Err(LinkError::Rejected),
    }
}

/// Builds the URL `base` with `segments` appended to its path. Fails where the
/// input is too long or the `url` crate does not take `base` for a URL with a
/// path.
pub fn build_url(base: &str, segments: &[&str]) -> (url: Result<String, LinkError>)
    ensures
        built_text(url) == extended_url(base@, segment_texts(segments@)),
{
    if !input_fits(base, segments) {
        return Err(LinkError::TooLong);
    }
    match extend_url(base, segments) {
        Some((url, _)) => Ok(url),
        None => Err(LinkError::Rejected),
    }
}

/// The path from which the row of `owner`/`repo` loads its detail fragment.
pub open spec fn repo_expand_path(owner: Seq<char>, repo: Seq<char>) -> Result<Seq<char>, LinkError> {
    extended_url_path("relative:/"@, seq!["dashboard"@, "repo"@, owner, repo, "expand"@])
}

/// The path from which the detail of `owner`/`repo` loads its dependency list.
pub open spec fn repo_deps_path(owner: Seq<char>, repo: Seq<char>) -> Result<Seq<char>, LinkError> {
    extended_url_path("relative:/"@, seq!["dashboard"@, "repo"@, owner, repo, "deps"@])
}

/// The address of the page of `owner`/`repo` on the hosting site.
pub open spec fn repo_page_url(owner: Seq<char>, repo: Seq<char>) -> Result<Seq<char>, LinkError> {
    extended_url("https://github.com"@, seq![owner, repo])
}

/// The address of the page of run `run_id` of a pipeline of `owner`/`repo`.
pub open spec fn actions_run_url(owner: Seq<char>, repo: Seq<char>, run_id: nat) -> Result<
    Seq<char>,
    LinkError,
> {
    extended_url(
        "https://github.com"@,
        seq![owner, repo, "actions"@, "runs"@, decimal_nat(run_id)],
    )
}

/// The value of the attribute that makes an element expandable: it names the path
/// to load and the element that takes what was loaded.
pub open spec fn expandable_directive_text(path: Seq<char>, element_id: Seq<char>) -> Seq<char> {
    "expandable('"@ + path + "', '"@ + element_id + "')"@
}

/// Builds the path of the detail fragment of a repository. Fails where the names
/// are too long for a URL or the `url` crate refuses to build one.
pub fn repo_expand_url(owner: &str, repo: &str) -> (path: Result<String, LinkError>)
    ensures
        built_text(path) == repo_expand_path(owner@, repo@),
{
    let segments = ["dashboard", "repo", owner, repo, "expand"];
    assert(segment_texts(segments@) =~= seq!["dashboard"@, "repo"@, owner@, repo@, "expand"@]);
    build_path("relative:/", &segments)
}

/// Builds the path of the dependency fragment of a repository. Fails where the
/// names are too long for a URL or the `url` crate refuses to build one.
pub fn repo_deps_url(owner: &str, repo: &str) -> (path: Result<String, LinkError>)
    ensures
        built_text(path) == repo_deps_path(owner@, repo@),
{
    let segments = ["dashboard", "repo", owner, repo, "deps"];
    assert(segment_texts(segments@) =~= seq!["dashboard"@, "repo"@, owner@, repo@, "deps"@]);
    build_path("relative:/", &segments)
}

/// Builds the address of a repository's page on the hosting site. Fails where the
/// names are too long for a URL or the `url` crate refuses to build one.
pub fn repo_github_url(owner: &str, repo: &str) -> (url: Result<String, LinkError>)
    ensures
        built_text(url) == repo_page_url(owner@, repo@),
{
    let segments = [owner, repo];
    assert(segment_texts(segments@) =~= seq![owner@, repo@]);
    build_url("https://github.com", &segments)
}

/// Builds the address of the page of one pipeline run. Fails where the names are
/// too long for a URL or the `url` crate refuses to build one.
pub fn github_actions_url(owner: &str, repo: &str, run_id: u64) -> (url: Result<String, LinkError>)
    ensures
        built_text(url) == actions_run_url(owner@, repo@, run_id as nat),
{
    let run = decimal_string(run_id);
    let segments = [owner, repo, "actions", "runs", run.as_str()];
    assert(segment_texts(segments@) =~= seq![
        owner@,
        repo@,
        "actions"@,
        "runs"@,
        decimal_nat(run_id as nat),
    ]);
    build_url("https://github.com", &segments)
}

/// Generates the value of the `x-data` attribute of an expandable element.
pub fn expandable_directive(path: &str, element_id: &str) -> (directive: String)
    ensures
        directive@ == expandable_directive_text(path@, element_id@),
{
    let mut directive = "expandable('".to_owned();
    directive.append(path);
    directive.append("', '");
    directive.append(element_id);
    directive.append("')");
    directive
}

} // verus!
