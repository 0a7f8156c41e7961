//! One search result: a paper with a resolved canonical link.
//!
//! The link is computed with a fixed priority: a DOI URL when the record has
//! a DOI external identifier, else an arXiv PDF URL when it has an arXiv
//! identifier, else the record's own `url` field.

use vstd::prelude::*;
use crate::error::{PRZZIError, PRZZIErrorKind};
use crate::json::{jv_of, jv_field, jv_str_field, json_get, json_as_array, json_as_u64, get_str_field, Jv};
use crate::strutil::concat_str;
use crate::urls::{url_ok, url_is_valid};

verus! {

/// The DOI of a record: `externalIds.DOI`, when present as a string.
pub open spec fn spec_doi(rec: Jv) -> Option<Seq<char>> {
    match jv_field(rec, "externalIds"@) {
        Some(ext) => jv_str_field(ext, "DOI"@),
        None => None,
    }
}

/// The arXiv identifier of a record: `externalIds.ArXiv`, when present as a
/// string.
pub open spec fn spec_arxiv(rec: Jv) -> Option<Seq<char>> {
    match jv_field(rec, "externalIds"@) {
        Some(ext) => jv_str_field(ext, "ArXiv"@),
        None => None,
    }
}

/// The canonical link of a record: the DOI URL first, else the arXiv PDF
/// URL, else the record's raw `url` field.
pub open spec fn spec_link(rec: Jv) -> Option<Seq<char>> {
    if spec_doi(rec) is Some {
        Some("https://doi.org/"@ + spec_doi(rec)->0)
    } else if spec_arxiv(rec) is Some {
        Some("https://arxiv.org/pdf/"@ + spec_arxiv(rec)->0 + ".pdf"@)
    } else {
        jv_str_field(rec, "url"@)
    }
}

/// The title of a record; empty when the record has none.
pub open spec fn spec_title(rec: Jv) -> Seq<char> {
    match jv_str_field(rec, "title"@) {
        Some(t) => t,
        None => Seq::empty(),
    }
}

/// The abstract of a record; empty when the record has none.
pub open spec fn spec_abs(rec: Jv) -> Seq<char> {
    match jv_str_field(rec, "abstract"@) {
        Some(t) => t,
        None => Seq::empty(),
    }
}

/// The year of a record, when it is an integer a `usize` can hold.
pub open spec fn spec_year(rec: Jv) -> Option<int> {
    match jv_field(rec, "year"@) {
        Some(Jv::Int(i)) => if 0 <= i <= usize::MAX {
            Some(i)
        } else {
            None
        },
        _ => None,
    }
}

/// Whether the record's `authors` field is an array whose every element has
/// a string `name`.
pub open spec fn spec_authors_ok(rec: Jv) -> bool {
    match jv_field(rec, "authors"@) {
        Some(Jv::Arr(items)) => forall|i: int|
            0 <= i < items.len() ==> jv_str_field(#[trigger] items[i], "name"@) is Some,
        _ => false,
    }
}

/// The author names of a record, truncated to the first four for display.
pub open spec fn spec_authors(rec: Jv) -> Seq<Seq<char>>
    recommends
        spec_authors_ok(rec),
{
    let items = jv_field(rec, "authors"@)->0->Arr_0;
    let names = items.map_values(|a: Jv| jv_str_field(a, "name"@)->0);
    if names.len() <= 4 {
        names
    } else {
        names.take(4)
    }
}

/// Whether a record can become a paper: a resolvable, well-formed link, a
/// usable year, and well-formed authors.
pub open spec fn record_ok(rec: Jv) -> bool {
    &&& spec_link(rec) matches Some(l) && url_ok(l)
    &&& spec_year(rec) is Some
    &&& spec_authors_ok(rec)
}

/// The link-priority law: a record with a DOI links to the DOI URL; one with
/// no DOI but an arXiv identifier links to the arXiv PDF URL; one with
/// neither links to its own raw `url` field.
pub proof fn lemma_link_priority(rec: Jv)
    ensures
        (spec_doi(rec) matches Some(d) ==> spec_link(rec) == Some("https://doi.org/"@ + d)),
        (spec_doi(rec) is None ==> (spec_arxiv(rec) matches Some(a) ==> spec_link(rec) == Some(
            "https://arxiv.org/pdf/"@ + a + ".pdf"@,
        ))),
        spec_doi(rec) is None && spec_arxiv(rec) is None ==> spec_link(rec) == jv_str_field(
            rec,
            "url"@,
        ),
{
}

/// One result of a search: a paper and its resolved canonical link.
pub struct PRZZIResult {
    pub url: String,
    pub title: String,
    pub abs: String,
    pub year: usize,
    pub authors: Vec<String>,
}

/// Whether a paper is exactly what the given record decodes to.
pub open spec fn is_paper_of(p: PRZZIResult, rec: Jv) -> bool {
    &&& record_ok(rec)
    &&& spec_link(rec) == Some(p.url@)
    &&& p.title@ == spec_title(rec)
    &&& p.abs@ == spec_abs(rec)
    &&& spec_year(rec) == Some(p.year as int)
    &&& p.authors.deep_view() == spec_authors(rec)
}

impl PRZZIResult {
    /// The paper's link is always a well-formed absolute URL.
    pub open spec fn wf(&self) -> bool {
        url_ok(self.url@)
    }

    /// The canonical link of a record, by the fixed priority.
    fn link_of(record: &serde_json::Value) -> (r: Option<String>)
        ensures
            match r {
                Some(s) => spec_link(jv_of(*record)) == Some(s@),
                None => spec_link(jv_of(*record)) is None,
            },
    {
        let ext = json_get(record, "externalIds");
        if let Some(e) = ext {
            if let Some(doi) = get_str_field(e, "DOI") {
                return Some(concat_str("https://doi.org/", doi));
            }
            if let Some(arxiv) = get_str_field(e, "ArXiv") {
                let head = concat_str("https://arxiv.org/pdf/", arxiv);
                return Some(concat_str(head.as_str(), ".pdf"));
            }
        }
        match get_str_field(record, "url") {
            Some(u) => Some(u.to_owned()),
            None => None,
        }
    }

    /// The year of a record, when usable.
    fn year_of(record: &serde_json::Value) -> (r: Option<usize>)
        ensures
            match r {
                Some(y) => spec_year(jv_of(*record)) == Some(y as int),
                None => spec_year(jv_of(*record)) is None,
            },
    {
        match json_get(record, "year") {
            Some(y) => match json_as_u64(y) {
                Some(n) => if n <= usize::MAX as u64 {
                    Some(n as usize)
                } else {
                    None
                },
                None => None,
            },
            None => None,
        }
    }

    /// The first four author names of a record; `None` when any element of
    /// `authors` is unusable.
    fn authors_of(record: &serde_json::Value) -> (r: Option<Vec<String>>)
        ensures
            (r is Some) == spec_authors_ok(jv_of(*record)),
            (r matches Some(v) ==> v.deep_view() == spec_authors(jv_of(*record))),
    {
        let authors_val = match json_get(record, "authors") {
            Some(a) => a,
            None => return None,
        };
        let arr = match json_as_array(authors_val) {
            Some(items) => items,
            None => return None,
        };
        proof {
            assert(jv_field(jv_of(*record), "authors"@) == Some(jv_of(*authors_val)));
            assert(jv_of(*authors_val) is Arr);
        }
        let ghost items = jv_field(jv_of(*record), "authors"@)->0->Arr_0;
        let ghost names = items.map_values(|a: Jv| jv_str_field(a, "name"@)->0);
        let mut out: Vec<String> = Vec::new();
        let mut i: usize = 0;
        while i < arr.len()
            invariant
                jv_field(jv_of(*record), "authors"@) == Some(Jv::Arr(items)),
                arr@.len() == items.len(),
                forall|j: int| 0 <= j < items.len() ==> jv_of(#[trigger] arr@[j]) == items[j],
                names == items.map_values(|a: Jv| jv_str_field(a, "name"@)->0),
                i <= items.len(),
                forall|j: int| 0 <= j < i ==> jv_str_field(#[trigger] items[j], "name"@) is Some,
                out@.len() == (if i <= 4 { i as int } else { 4 }),
                forall|j: int| 0 <= j < out@.len() ==> (#[trigger] out@[j])@ == names[j],
            decreases arr.len() - i,
        {
            match get_str_field(&arr[i], "name") {
                Some(name) => {
                    if out.len() < 4 {
                        out.push(name.to_owned());
                    }
                },
                None => {
                    proof {
                        assert(jv_str_field(items[i as int], "name"@) is None);
                        assert(!spec_authors_ok(jv_of(*record)));
                    }
                    return None;
                },
            }
            i += 1;
        }
        proof {
            assert(out.deep_view() =~= spec_authors(jv_of(*record)));
        }
        Some(out)
    }

    /// Decodes one search record into a paper.
    ///
    /// Fails with `MalformedResult` exactly when the record has no
    /// resolvable well-formed link, no usable year, or unusable authors.
    pub fn new(record: &serde_json::Value) -> (r: Result<Self, PRZZIError>)
        ensures
            (r is Ok) == record_ok(jv_of(*record)),
            (r matches Ok(p) ==> is_paper_of(p, jv_of(*record)) && p.wf()),
            (r matches Err(e) ==> e.kind == PRZZIErrorKind::MalformedResult),
    {
        let url = match Self::link_of(record) {
            Some(u) => u,
            None => {
                return Err(PRZZIError::new(
                    PRZZIErrorKind::MalformedResult,
                    "record has no resolvable link".to_owned(),
                ));
            },
        };
        if !url_is_valid(url.as_str()) {
            return Err(PRZZIError::new(
                PRZZIErrorKind::MalformedResult,
                "record link is not a well-formed URL".to_owned(),
            ));
        }
        let year = match Self::year_of(record) {
            Some(y) => y,
            None => {
                return Err(PRZZIError::new(
                    PRZZIErrorKind::MalformedResult,
                    "record year is missing or unusable".to_owned(),
                ));
            },
        };
        let authors = match Self::authors_of(record) {
            Some(a) => a,
            None => {
                return Err(PRZZIError::new(
                    PRZZIErrorKind::MalformedResult,
                    "record authors are missing or unusable".to_owned(),
                ));
            },
        };
        let title = match get_str_field(record, "title") {
            Some(t) => t.to_owned(),
            None => String::new(),
        };
        let abs = match get_str_field(record, "abstract") {
            Some(t) => t.to_owned(),
            None => String::new(),
        };
        Ok(PRZZIResult { url, title, abs, year, authors })
    }
}

} // verus!
