//! The string utilities and the rendered views.

use paperazzi::nav::{PRZZITUI, Rect};
use paperazzi::paper::PRZZIResult;
use paperazzi::render::{wrap_words, Cursor};
use paperazzi::strutil::{concat_str, contains_sub, find_from, join_strings, last_segment, str_eq};

#[test]
fn find_from_locates_first_occurrence() {
    assert_eq!(find_from("abcabc", "bc", 0), Some(1));
    assert_eq!(find_from("abcabc", "bc", 2), Some(4));
    assert_eq!(find_from("abcabc", "zz", 0), None);
    assert_eq!(find_from("abc", "abcd", 0), None);
}

#[test]
fn contains_sub_finds_infixes() {
    assert!(contains_sub("https://doi.org/10.1/x", "doi"));
    assert!(!contains_sub("https://example.org/p", "doi"));
}

#[test]
fn last_segment_takes_suffix_after_slash() {
    assert_eq!(last_segment("/download/123.pdf"), "123.pdf");
    assert_eq!(last_segment("plain"), "plain");
    assert_eq!(last_segment("/ends/with/"), "");
}

#[test]
fn join_strings_separates_elements() {
    let v = vec!["Ada".to_string(), "Grace".to_string(), "Edsger".to_string()];
    assert_eq!(join_strings(&v, ", "), "Ada, Grace, Edsger");
    assert_eq!(join_strings(&vec!["solo".to_string()], ", "), "solo");
    assert_eq!(join_strings(&Vec::new(), ", "), "");
}

#[test]
fn str_eq_compares_characters() {
    assert!(str_eq("application/pdf", "application/pdf"));
    assert!(!str_eq("application/pdf", "text/html"));
    assert!(!str_eq("a", "ab"));
}

#[test]
fn concat_str_appends() {
    assert_eq!(concat_str("https://doi.org/", "10.1/x"), "https://doi.org/10.1/x");
}

#[test]
fn wrap_words_limits_words_per_line() {
    let words: Vec<String> =
        ["one", "two", "three", "four"].iter().map(|s| s.to_string()).collect();
    let lines = wrap_words(&words, 2, 100);
    assert_eq!(
        lines,
        vec![
            vec!["one".to_string(), "two".to_string()],
            vec!["three".to_string(), "four".to_string()],
        ]
    );
}

#[test]
fn wrap_words_limits_line_width() {
    let words: Vec<String> =
        ["one", "two", "three", "four"].iter().map(|s| s.to_string()).collect();
    let lines = wrap_words(&words, 15, 8);
    assert_eq!(
        lines,
        vec![
            vec!["one".to_string()],
            vec!["two".to_string()],
            vec!["three".to_string()],
            vec!["four".to_string()],
        ]
    );
}

#[test]
fn wrap_words_on_nothing_gives_one_empty_line() {
    let lines = wrap_words(&Vec::new(), 15, 50);
    assert_eq!(lines, vec![Vec::<String>::new()]);
}

#[test]
fn frame_reads_current_paper() {
    let mut tui = PRZZITUI::new();
    tui.set_results(vec![PRZZIResult {
        url: "https://doi.org/10.1/x".to_string(),
        title: "A Title".to_string(),
        abs: "Some abstract.".to_string(),
        year: 2019,
        authors: vec!["Ada".to_string(), "Grace".to_string()],
    }]);
    tui.scroll_down();
    let frame = tui.draw(Rect { x: 0, y: 0, width: 100, height: 50 });
    assert_eq!(frame.title.title, "A Title");
    assert_eq!(frame.title.year, 2019);
    assert_eq!(frame.title.authors, "Ada, Grace");
    assert_eq!(frame.abs.heading, "Abstract");
    assert_eq!(frame.abs.text, "Some abstract.");
    assert_eq!(frame.abs.scroll, 1);
    assert_eq!(frame.footer.len(), 5);
    assert_eq!(frame.footer[0].key, "p: ");
    assert_eq!(frame.footer[0].action, "Previous");
    assert!(frame.popup.is_none());
}

#[test]
fn frame_with_popup_adds_hint_and_overlay() {
    let mut tui = PRZZITUI::new();
    tui.set_results(vec![PRZZIResult {
        url: "https://doi.org/10.1/x".to_string(),
        title: "T".to_string(),
        abs: "A".to_string(),
        year: 2019,
        authors: vec![],
    }]);
    tui.finish_download(false);
    let frame = tui.draw(Rect { x: 0, y: 0, width: 100, height: 50 });
    assert_eq!(frame.footer.len(), 6);
    assert_eq!(frame.footer[5].key, "q: ");
    assert_eq!(frame.footer[5].action, "Close Popup");
    let overlay = frame.popup.unwrap();
    assert_eq!(overlay.area, Rect { x: 10, y: 17, width: 80, height: 15 });
}

#[test]
fn cursor_moves_are_clamped() {
    let mut c = Cursor::new();
    assert_eq!(c.current, 0);
    c.lines.push(paperazzi::render::LinePosition { x: 10, y: 0, len: 5 });
    c.lines.push(paperazzi::render::LinePosition { x: 8, y: 1, len: 3 });
    c.move_up();
    assert_eq!(c.current, 0);
    c.move_down();
    assert_eq!(c.current, 1);
    c.move_down();
    assert_eq!(c.current, 1);
    c.move_left();
    assert_eq!(c.current_column, 0);
    c.move_right();
    c.move_right();
    c.move_right();
    c.move_right();
    assert_eq!(c.current_column, 3);
    assert_eq!(c.get_position(), (11, 1));
    c.move_up();
    assert_eq!(c.get_position(), (13, 0));
}
