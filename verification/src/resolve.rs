//! The PDF-resolution pipeline's decisions, as pure steps.
//!
//! A resolution turns a paper's canonical link into a PDF on disk in three
//! decisions, each verified here, with the two blocking fetches and the file
//! write performed by the surrounding application between them:
//!
//! 1. `mirror_url`: rewrite the link's path onto the fixed mirror host.
//! 2. `redirect_target`: find the download button in the fetched mirror
//!    page, read the redirect path out of its `onclick` handler, and resolve
//!    it against the mirror's own origin.
//! 3. `accept_download`: accept the fetched payload only when it really is a
//!    PDF, and name it after the last path segment of the final URL.
//!
//! Every failure is terminal for the attempt and no step hands out a partial
//! artifact.

use vstd::prelude::*;
use select::predicate::Predicate;
use crate::error::{PRZZIError, PRZZIErrorKind};
use crate::strutil::{
    first_match_from,
    find_from,
    last_seg,
    last_segment,
    concat_str,
    str_eq,
    lemma_first_match_is_match,
};
use crate::urls::{url_ok, url_path_of, url_joined, url_path, url_join};

verus! {

/// What a successful resolution yields: the bytes of the PDF, and the name
/// to write them under.
pub struct DownloadArtifact {
    pub filename: String,
    pub bytes: Vec<u8>,
}

/// The `onclick` handler text of the first `button` nested under the element
/// with id `buttons` in a page, if there is one and it has that attribute.
pub uninterp spec fn button_onclick_of(html: Seq<char>) -> Option<Seq<char>>;

/// Relies on select's `Document::from`, `Document::find` with
/// `Attr("id", "buttons").descendant(Name("button"))`, and `Node::attr`:
/// the first such button's `onclick` text, a function of the page text alone.
#[verifier::external_body]
fn find_button_onclick(html: &str) -> (r: Option<String>)
    ensures
        (r is Some) == (button_onclick_of(html@) is Some),
        (r matches Some(s) ==> button_onclick_of(html@) == Some(s@)),
{
    let document = select::document::Document::from(html);
    let found = document
        .find(select::predicate::Attr("id", "buttons").descendant(
            select::predicate::Name("button"),
        ))
        .next();
    match found {
        Some(node) => node.attr("onclick").map(|s| s.to_string()),
        None => None,
    }
}

/// The redirect path embedded in an `onclick` handler: the text between the
/// first `location.href='` and the next `'` after it.
pub open spec fn spec_extract_href(s: Seq<char>) -> Option<Seq<char>> {
    match first_match_from(s, "location.href='"@, 0) {
        Some(i) => {
            let start = i + "location.href='"@.len();
            match first_match_from(s, "'"@, start as int) {
                Some(j) => Some(s.subrange(start as int, j)),
                None => None,
            }
        },
        None => None,
    }
}

/// Reads the redirect path out of a button's `onclick` handler text.
pub fn extract_redirect_path(onclick: &str) -> (r: Option<String>)
    ensures
        (r is Some) == (spec_extract_href(onclick@) is Some),
        (r matches Some(p) ==> spec_extract_href(onclick@) == Some(p@)),
{
    let pat = "location.href='";
    let i = match find_from(onclick, pat, 0) {
        Some(i) => i,
        None => return None,
    };
    proof {
        lemma_first_match_is_match(onclick@, pat@, 0);
    }
    let slen = onclick.unicode_len();
    let start = i + pat.unicode_len();
    let j = match find_from(onclick, "'", start) {
        Some(j) => j,
        None => return None,
    };
    proof {
        lemma_first_match_is_match(onclick@, "'"@, start as int);
    }
    Some(onclick.substring_char(start, j).to_owned())
}

/// The fixed mirror that resolutions scrape.
pub fn mirror_base() -> (r: &'static str)
    ensures
        r@ == "https://sci-hub.wf/"@,
{
    "https://sci-hub.wf/"
}

/// The source link's path rewritten onto the fixed mirror host, when the
/// link parses and has a rooted path.
pub open spec fn spec_mirror_url(source: Seq<char>) -> Option<Seq<char>> {
    if url_ok(source) && url_path_of(source).len() > 0 && url_path_of(source)[0] == '/' {
        Some("https://sci-hub.wf"@ + url_path_of(source))
    } else {
        None
    }
}

/// The page a resolution of `html` redirects to: the path read out of the
/// download button, resolved against the mirror's own origin.
pub open spec fn spec_redirect_target(html: Seq<char>) -> Option<Seq<char>> {
    match button_onclick_of(html) {
        Some(onclick) => match spec_extract_href(onclick) {
            Some(path) => url_joined("https://sci-hub.wf/"@, path),
            None => None,
        },
        None => None,
    }
}

fn resolution_failed() -> (e: PRZZIError)
    ensures
        e.kind == PRZZIErrorKind::ResolutionFailed,
{
    PRZZIError::new(
        PRZZIErrorKind::ResolutionFailed,
        "Download failed! :-( \n Please Check the DOI or raise an issue on github".to_owned(),
    )
}

/// Derives the mirror URL to fetch for a source link: the link's path on
/// the fixed mirror host.
pub fn mirror_url(source_link: &str) -> (r: Result<String, PRZZIError>)
    ensures
        (r is Ok) == (spec_mirror_url(source_link@) is Some),
        (r matches Ok(u) ==> spec_mirror_url(source_link@) == Some(u@)),
        (r matches Err(e) ==> e.kind == PRZZIErrorKind::ResolutionFailed),
{
    let path = match url_path(source_link) {
        Some(p) => p,
        None => return Err(resolution_failed()),
    };
    if path.unicode_len() == 0 {
        return Err(resolution_failed());
    }
    if path.as_str().get_char(0) != '/' {
        return Err(resolution_failed());
    }
    Ok(concat_str("https://sci-hub.wf", path.as_str()))
}

/// Finds the download button in a fetched mirror page and derives the URL
/// it redirects to. Fails exactly when the page has no such button, the
/// button's handler holds no `location.href='...'` pattern, or the embedded
/// path cannot be resolved against the mirror's origin.
pub fn redirect_target(html: &str) -> (r: Result<String, PRZZIError>)
    ensures
        (r is Ok) == (spec_redirect_target(html@) is Some),
        (r matches Ok(u) ==> spec_redirect_target(html@) == Some(u@)),
        (r matches Err(e) ==> e.kind == PRZZIErrorKind::ResolutionFailed),
{
    let onclick = match find_button_onclick(html) {
        Some(o) => o,
        None => return Err(resolution_failed()),
    };
    let path = match extract_redirect_path(onclick.as_str()) {
        Some(p) => p,
        None => return Err(resolution_failed()),
    };
    match url_join(mirror_base(), path.as_str()) {
        Some(u) => Ok(u),
        None => Err(resolution_failed()),
    }
}

/// Accepts a fetched payload as the resolved PDF only when its content type
/// is exactly `application/pdf`; the artifact is named after the last path
/// segment of the final response URL. On any other content type, or none,
/// nothing is handed out.
pub fn accept_download(
    content_type: Option<&str>,
    final_url_path: &str,
    body: Vec<u8>,
) -> (r: Result<DownloadArtifact, PRZZIError>)
    ensures
        (r is Ok) == (content_type matches Some(ct) && ct@ == "application/pdf"@),
        (r matches Ok(a) ==> a.filename@ == last_seg(final_url_path@) && a.bytes == body),
        (r matches Err(e) ==> e.kind == PRZZIErrorKind::ResolutionFailed),
{
    match content_type {
        Some(ct) => {
            if str_eq(ct, "application/pdf") {
                Ok(DownloadArtifact { filename: last_segment(final_url_path), bytes: body })
            } else {
                Err(resolution_failed())
            }
        },
        None => Err(resolution_failed()),
    }
}

} // verus!
