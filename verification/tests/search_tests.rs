//! Search-client behaviour: configuration checking, query building, and the
//! decoding of index responses into papers.

use paperazzi::error::PRZZIErrorKind;
use paperazzi::nav::PRZZITUI;
use paperazzi::search::{PRZZI, PRZZIConfig, RunMode};

fn client(query: &str, limit: usize) -> PRZZI {
    PRZZI::new(PRZZIConfig {
        query: Some(query.to_string()),
        num_results: limit,
        download: None,
    })
    .ok()
    .unwrap()
}

fn record(title: &str, doi: Option<&str>, arxiv: Option<&str>, url: &str) -> String {
    let mut ext = String::new();
    if let Some(d) = doi {
        ext.push_str(&format!("\"DOI\":\"{}\"", d));
    }
    if let Some(a) = arxiv {
        if !ext.is_empty() {
            ext.push(',');
        }
        ext.push_str(&format!("\"ArXiv\":\"{}\"", a));
    }
    format!(
        "{{\"title\":\"{}\",\"abstract\":\"An abstract.\",\"year\":2020,\
         \"url\":\"{}\",\"externalIds\":{{{}}},\
         \"authors\":[{{\"name\":\"Ada\"}},{{\"name\":\"Grace\"}}]}}",
        title, url, ext
    )
}

fn body_of(records: &[String]) -> String {
    format!("{{\"data\":[{}]}}", records.join(","))
}

#[test]
fn config_needs_query_or_download() {
    let r = PRZZI::new(PRZZIConfig { query: None, num_results: 10, download: None });
    let e = r.err().unwrap();
    assert_eq!(e.kind, PRZZIErrorKind::Config);
    assert_eq!(e.message(), "Either query or download must be specified");
}

#[test]
fn config_with_query_is_interactive() {
    let p = client("transformer", 5);
    assert_eq!(p.mode(), RunMode::Interactive);
    assert_eq!(p.search_url, "https://api.semanticscholar.org/graph/v1/paper/search");
}

#[test]
fn config_with_download_is_direct() {
    let p = PRZZI::new(PRZZIConfig {
        query: None,
        num_results: 10,
        download: Some("https://doi.org/10.1234/abc".to_string()),
    })
    .ok()
    .unwrap();
    assert_eq!(p.mode(), RunMode::DirectDownload);
}

#[test]
fn query_carries_fixed_fields() {
    let p = client("transformer", 7);
    let q = p.build_query();
    assert_eq!(q.query, Some("transformer".to_string()));
    assert_eq!(q.limit, 7);
    assert_eq!(q.fields, "title,abstract,authors,year,url,externalIds");
}

#[test]
fn five_records_in_order_selected_zero() {
    let records: Vec<String> = (0..5)
        .map(|i| {
            record(
                &format!("Attention {}", i),
                Some(&format!("10.1234/a{}", i)),
                None,
                "https://example.org/p",
            )
        })
        .collect();
    let p = client("transformer", 5);
    let results = p.search(&body_of(&records)).ok().unwrap();
    assert_eq!(results.len(), 5);
    assert_eq!(results[0].title, "Attention 0");
    for (i, r) in results.iter().enumerate() {
        assert_eq!(r.title, format!("Attention {}", i));
        assert_eq!(r.year, 2020);
        assert_eq!(r.authors, vec!["Ada".to_string(), "Grace".to_string()]);
    }
    let mut tui = PRZZITUI::new();
    tui.set_results(results);
    assert_eq!(tui.result_index, 0);
}

#[test]
fn doi_wins_link_priority() {
    let p = client("q", 1);
    let results = p
        .search(&body_of(&[record(
            "T",
            Some("10.1234/abc"),
            Some("1706.03762"),
            "https://example.org/p",
        )]))
        .ok()
        .unwrap();
    assert_eq!(results[0].url, "https://doi.org/10.1234/abc");
}

#[test]
fn arxiv_used_when_no_doi() {
    let p = client("q", 1);
    let results = p
        .search(&body_of(&[record("T", None, Some("1706.03762"), "https://example.org/p")]))
        .ok()
        .unwrap();
    assert_eq!(results[0].url, "https://arxiv.org/pdf/1706.03762.pdf");
}

#[test]
fn raw_url_used_when_no_identifier() {
    let p = client("q", 1);
    let results = p
        .search(&body_of(&[record("T", None, None, "https://example.org/p")]))
        .ok()
        .unwrap();
    assert_eq!(results[0].url, "https://example.org/p");
}

#[test]
fn authors_truncated_to_four() {
    let rec = "{\"title\":\"T\",\"abstract\":\"A\",\"year\":1999,\
               \"url\":\"https://example.org/p\",\"externalIds\":{},\
               \"authors\":[{\"name\":\"A\"},{\"name\":\"B\"},{\"name\":\"C\"},\
               {\"name\":\"D\"},{\"name\":\"E\"}]}";
    let p = client("q", 1);
    let results = p.search(&format!("{{\"data\":[{}]}}", rec)).ok().unwrap();
    assert_eq!(results[0].authors, vec!["A", "B", "C", "D"]);
}

#[test]
fn invalid_json_is_decode_error() {
    let p = client("q", 1);
    let e = p.search("not json at all {").err().unwrap();
    assert_eq!(e.kind, PRZZIErrorKind::Decode);
}

#[test]
fn missing_data_array_is_decode_error() {
    let p = client("q", 1);
    let e = p.search("{\"total\":0}").err().unwrap();
    assert_eq!(e.kind, PRZZIErrorKind::Decode);
    let e = p.search("{\"data\":\"nope\"}").err().unwrap();
    assert_eq!(e.kind, PRZZIErrorKind::Decode);
}

#[test]
fn one_bad_record_fails_whole_search() {
    let good = record("G", Some("10.1/x"), None, "https://example.org/p");
    let bad = "{\"title\":\"B\",\"abstract\":\"A\",\
               \"url\":\"https://example.org/p\",\"externalIds\":{},\
               \"authors\":[{\"name\":\"A\"}]}"; // no year
    let p = client("q", 2);
    let e = p.search(&format!("{{\"data\":[{},{}]}}", good, bad)).err().unwrap();
    assert_eq!(e.kind, PRZZIErrorKind::MalformedResult);
}

#[test]
fn record_with_no_resolvable_link_is_malformed() {
    let rec = "{\"title\":\"T\",\"abstract\":\"A\",\"year\":2001,\
               \"externalIds\":{},\"authors\":[{\"name\":\"A\"}]}"; // no url at all
    let p = client("q", 1);
    let e = p.search(&format!("{{\"data\":[{}]}}", rec)).err().unwrap();
    assert_eq!(e.kind, PRZZIErrorKind::MalformedResult);
}

#[test]
fn record_with_invalid_link_is_malformed() {
    let rec = record("T", None, None, "not a url");
    let p = client("q", 1);
    let e = p.search(&body_of(&[rec])).err().unwrap();
    assert_eq!(e.kind, PRZZIErrorKind::MalformedResult);
}

#[test]
fn author_without_name_is_malformed() {
    let rec = "{\"title\":\"T\",\"abstract\":\"A\",\"year\":2001,\
               \"url\":\"https://example.org/p\",\"externalIds\":{},\
               \"authors\":[{\"surname\":\"A\"}]}";
    let p = client("q", 1);
    let e = p.search(&format!("{{\"data\":[{}]}}", rec)).err().unwrap();
    assert_eq!(e.kind, PRZZIErrorKind::MalformedResult);
}

#[test]
fn empty_data_array_gives_empty_results() {
    let p = client("q", 1);
    let results = p.search("{\"data\":[]}").ok().unwrap();
    assert_eq!(results.len(), 0);
}
