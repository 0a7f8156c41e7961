//! Trusted bindings to the URL library: validity, the path of a URL, and
//! RFC 3986 reference resolution. Each result is a function of the text
//! alone, so each is named by an uninterpreted spec function.

use vstd::prelude::*;

verus! {

/// Whether `url::Url::parse` accepts a text.
pub uninterp spec fn url_ok(s: Seq<char>) -> bool;

/// The path of a text parsed as a URL (meaningful only when `url_ok` holds).
pub uninterp spec fn url_path_of(s: Seq<char>) -> Seq<char>;

/// The resolution of a reference against a base URL, `None` when the base
/// does not parse or the reference cannot be resolved against it.
pub uninterp spec fn url_joined(base: Seq<char>, rel: Seq<char>) -> Option<Seq<char>>;

/// Relies on `url::Url::parse`: acceptance is a function of the text alone.
#[verifier::external_body]
pub fn url_is_valid(s: &str) -> (r: bool)
    ensures
        r == url_ok(s@),
{
    url::Url::parse(s).is_ok()
}

/// Relies on `url::Url::parse` and `url::Url::path`: the (percent-encoded)
/// path of the parsed URL.
#[verifier::external_body]
pub fn url_path(s: &str) -> (r: Option<String>)
    ensures
        (r is Some) == url_ok(s@),
        (r matches Some(p) ==> p@ == url_path_of(s@)),
{
    match url::Url::parse(s) {
        Ok(u) => Some(u.path().to_string()),
        Err(_) => None,
    }
}

/// Relies on `url::Url::parse` and `url::Url::join`: RFC 3986 resolution of
/// a reference against a base.
#[verifier::external_body]
pub fn url_join(base: &str, rel: &str) -> (r: Option<String>)
    ensures
        (r is Some) == (url_joined(base@, rel@) is Some),
        (r matches Some(u) ==> url_joined(base@, rel@) == Some(u@)),
{
    match url::Url::parse(base) {
        Ok(b) => match b.join(rel) {
            Ok(u) => Some(u.to_string()),
            Err(_) => None,
        },
        Err(_) => None,
    }
}

} // verus!
