//! The search client's verified side: configuration checking, the query that
//! is sent to the index, and the decoding of the index's JSON response into
//! papers.
//!
//! The HTTP transport itself lives in the surrounding application; it hands
//! the raw response text to `PRZZI::search`.

use vstd::prelude::*;
use crate::error::{PRZZIError, PRZZIErrorKind};
use crate::json::{json_of, jv_of, jv_field, json_parse, json_get, json_as_array, Jv};
use crate::nav::PRZZITUI;
use crate::paper::{PRZZIResult, record_ok, is_paper_of};

verus! {

/// The parameters of one search request, as the index expects them.
pub struct Query {
    pub query: Option<String>,
    pub limit: usize,
    pub fields: String,
}

/// What the caller asked for on the command line, already parsed: a query
/// to search for, or a link to download directly.
pub struct PRZZIConfig {
    pub query: Option<String>,
    pub num_results: usize,
    pub download: Option<String>,
}

/// Which of the two modes a run is in.
#[derive(Clone, Copy, Debug, PartialEq, Eq, Structural)]
pub enum RunMode {
    /// Search the index and browse the results interactively.
    Interactive,
    /// Resolve and download one link, with no UI.
    DirectDownload,
}

/// The `data` array of a decoded response, when the response is an object
/// that has one.
pub open spec fn spec_data(resp: Jv) -> Option<Seq<Jv>> {
    match jv_field(resp, "data"@) {
        Some(Jv::Arr(items)) => Some(items),
        _ => None,
    }
}

/// Whether every record of a response can become a paper.
pub open spec fn all_records_ok(records: Seq<Jv>) -> bool {
    forall|i: int| 0 <= i < records.len() ==> record_ok(#[trigger] records[i])
}

/// What a response body decodes to: its `data` records, or `None` when the
/// body is not valid JSON or lacks a `data` array.
pub open spec fn search_decodes(body: Seq<char>) -> Option<Seq<Jv>> {
    match json_of(body) {
        Some(resp) => spec_data(resp),
        None => None,
    }
}

/// The client: the browsing state it owns, the index endpoint, and the run's
/// configuration.
pub struct PRZZI {
    pub tui: PRZZITUI,
    pub search_url: String,
    pub query: Option<String>,
    pub num_results: usize,
    pub download: Option<String>,
}

impl PRZZI {
    /// Accepts a configuration. Fails with a configuration error exactly
    /// when it names neither a query nor a download link.
    pub fn new(config: PRZZIConfig) -> (r: Result<Self, PRZZIError>)
        ensures
            (r is Ok) == (config.query is Some || config.download is Some),
            (r matches Ok(p) ==> {
                &&& p.query == config.query
                &&& p.num_results == config.num_results
                &&& p.download == config.download
                &&& p.search_url@ == "https://api.semanticscholar.org/graph/v1/paper/search"@
                &&& p.tui.results@ == Seq::<PRZZIResult>::empty()
                &&& p.tui.result_index == 0
                &&& p.tui.wf()
            }),
            (r matches Err(e) ==> e.kind == PRZZIErrorKind::Config),
    {
        if config.query.is_none() && config.download.is_none() {
            return Err(PRZZIError::new(
                PRZZIErrorKind::Config,
                "Either query or download must be specified".to_owned(),
            ));
        }
        Ok(PRZZI {
            tui: PRZZITUI::new(),
            search_url: "https://api.semanticscholar.org/graph/v1/paper/search".to_owned(),
            query: config.query,
            num_results: config.num_results,
            download: config.download,
        })
    }

    /// Which mode this run is in: interactive when a query was given.
    pub fn mode(&self) -> (m: RunMode)
        ensures
            m == (if self.query is Some {
                RunMode::Interactive
            } else {
                RunMode::DirectDownload
            }),
    {
        if self.query.is_some() {
            RunMode::Interactive
        } else {
            RunMode::DirectDownload
        }
    }

    /// The request parameters for this run's query: the query text, the
    /// requested number of results, and the fixed field-selection list.
    pub fn build_query(&self) -> (q: Query)
        ensures
            q.query == self.query,
            q.limit == self.num_results,
            q.fields@ == "title,abstract,authors,year,url,externalIds"@,
    {
        let query = match &self.query {
            Some(s) => Some(s.clone()),
            None => None,
        };
        Query {
            query,
            limit: self.num_results,
            fields: "title,abstract,authors,year,url,externalIds".to_owned(),
        }
    }

    /// Decodes the index's response body into papers.
    ///
    /// Fails with a decode error when the body is not valid JSON or lacks a
    /// `data` array, and with `MalformedResult` when any single record cannot
    /// become a paper; otherwise every record becomes one entry, in the
    /// order the index returned them.
    pub fn search(&self, body: &str) -> (r: Result<Vec<PRZZIResult>, PRZZIError>)
        ensures
            (r is Ok) == (search_decodes(body@) is Some && all_records_ok(
                search_decodes(body@)->0,
            )),
            (r matches Ok(v) ==> {
                &&& search_decodes(body@) matches Some(records)
                &&& v@.len() == records.len()
                &&& (forall|i: int|
                    0 <= i < records.len() ==> is_paper_of(#[trigger] v@[i], records[i]))
            }),
            (r matches Err(e) ==> match search_decodes(body@) {
                Some(records) => e.kind == PRZZIErrorKind::MalformedResult,
                None => e.kind == PRZZIErrorKind::Decode,
            }),
    {
        let resp = match json_parse(body) {
            Some(v) => v,
            None => {
                return Err(PRZZIError::new(
                    PRZZIErrorKind::Decode,
                    "response is not valid JSON".to_owned(),
                ));
            },
        };
        let data = match json_get(&resp, "data") {
            Some(d) => d,
            None => {
                return Err(PRZZIError::new(
                    PRZZIErrorKind::Decode,
                    "response has no data array".to_owned(),
                ));
            },
        };
        let arr = match json_as_array(data) {
            Some(a) => a,
            None => {
                return Err(PRZZIError::new(
                    PRZZIErrorKind::Decode,
                    "response has no data array".to_owned(),
                ));
            },
        };
        let ghost records = spec_data(jv_of(resp))->0;
        proof {
            assert(jv_field(jv_of(resp), "data"@) == Some(jv_of(*data)));
            assert(jv_of(*data) is Arr);
        }
        let mut out: Vec<PRZZIResult> = Vec::new();
        let mut i: usize = 0;
        while i < arr.len()
            invariant
                search_decodes(body@) == Some(records),
                arr@.len() == records.len(),
                forall|j: int| 0 <= j < records.len() ==> jv_of(#[trigger] arr@[j]) == records[j],
                i <= records.len(),
                out@.len() == i,
                forall|j: int| 0 <= j < i ==> is_paper_of(#[trigger] out@[j], records[j]),
            decreases arr.len() - i,
        {
            match PRZZIResult::new(&arr[i]) {
                Ok(p) => out.push(p),
                Err(e) => {
                    proof {
                        assert(!record_ok(records[i as int]));
                        assert(!all_records_ok(records));
                    }
                    return Err(e);
                },
            }
            i += 1;
        }
        proof {
            assert forall|j: int| 0 <= j < records.len() implies record_ok(
                #[trigger] records[j],
            ) by {
                assert(is_paper_of(out@[j], records[j]));
            }
            assert(all_records_ok(records));
        }
        Ok(out)
    }
}

} // verus!
