//! The navigation state machine: clamped cursor moves, scroll behaviour,
//! the popup overlay, and the key-to-action dispatch.

use paperazzi::nav::{KeyInput, Popup, PopupColor, PopupKind, PRZZITUI, Rect, UiAction};
use paperazzi::paper::PRZZIResult;

fn paper(title: &str, url: &str) -> PRZZIResult {
    PRZZIResult {
        url: url.to_string(),
        title: title.to_string(),
        abs: "An abstract body.".to_string(),
        year: 2020,
        authors: vec!["Ada".to_string(), "Grace".to_string()],
    }
}

fn tui_with(n: usize) -> PRZZITUI {
    let mut tui = PRZZITUI::new();
    let results: Vec<PRZZIResult> = (0..n)
        .map(|i| paper(&format!("Paper {}", i), &format!("https://doi.org/10.1/{}", i)))
        .collect();
    tui.set_results(results);
    tui
}

#[test]
fn three_nexts_clamp_at_last_of_three() {
    let mut tui = tui_with(3);
    assert_eq!(tui.result_index, 0);
    tui.handle_key(KeyInput::Next);
    tui.handle_key(KeyInput::Next);
    tui.handle_key(KeyInput::Next);
    assert_eq!(tui.result_index, 2);
    assert!(!tui.popup.show_popup);
}

#[test]
fn next_at_last_is_noop_but_resets() {
    let mut tui = tui_with(2);
    tui.next_result();
    assert_eq!(tui.result_index, 1);
    tui.scroll_down();
    tui.finish_download(true);
    tui.next_result();
    assert_eq!(tui.result_index, 1);
    assert_eq!(tui.scroll, 0);
    assert!(!tui.popup.show_popup);
}

#[test]
fn previous_at_first_is_noop_but_resets() {
    let mut tui = tui_with(2);
    tui.scroll_down();
    tui.finish_download(true);
    tui.previous_result();
    assert_eq!(tui.result_index, 0);
    assert_eq!(tui.scroll, 0);
    assert!(!tui.popup.show_popup);
}

#[test]
fn previous_steps_back() {
    let mut tui = tui_with(3);
    tui.next_result();
    tui.next_result();
    tui.previous_result();
    assert_eq!(tui.result_index, 1);
}

#[test]
fn scroll_up_at_zero_is_noop() {
    let mut tui = tui_with(1);
    tui.scroll_up();
    assert_eq!(tui.scroll, 0);
}

#[test]
fn scroll_down_always_accepted() {
    let mut tui = tui_with(1);
    tui.scroll_down();
    tui.scroll_down();
    tui.scroll_down();
    assert_eq!(tui.scroll, 3);
    tui.scroll_up();
    assert_eq!(tui.scroll, 2);
}

#[test]
fn quit_key_exits() {
    let mut tui = tui_with(1);
    assert_eq!(tui.handle_key(KeyInput::Quit), UiAction::Exit);
}

#[test]
fn other_key_only_redraws() {
    let mut tui = tui_with(2);
    tui.scroll_down();
    assert_eq!(tui.handle_key(KeyInput::Other), UiAction::Redraw);
    assert_eq!(tui.result_index, 0);
    assert_eq!(tui.scroll, 1);
}

#[test]
fn download_key_opens_info_popup() {
    let mut tui = tui_with(1);
    assert_eq!(tui.handle_key(KeyInput::Download), UiAction::Download);
    assert!(tui.popup.show_popup);
    assert_eq!(tui.popup.popup_kind, PopupKind::Info);
    assert_eq!(tui.popup.popup_msg, "Attempting to Download");
}

#[test]
fn download_target_needs_doi_link() {
    let tui = tui_with(1);
    assert_eq!(tui.download_target(), Some("https://doi.org/10.1/0".to_string()));
    let mut tui2 = PRZZITUI::new();
    tui2.set_results(vec![paper("T", "https://example.org/p")]);
    assert_eq!(tui2.download_target(), None);
}

#[test]
fn download_unavailable_sets_error_popup() {
    let mut tui = tui_with(1);
    tui.download_unavailable();
    assert!(tui.popup.show_popup);
    assert_eq!(tui.popup.popup_kind, PopupKind::Error);
}

#[test]
fn finish_download_reports_outcome() {
    let mut tui = tui_with(1);
    tui.finish_download(true);
    assert_eq!(tui.popup.popup_kind, PopupKind::Success);
    assert_eq!(tui.popup.popup_msg, "Download Complete :) !!");
    tui.finish_download(false);
    assert_eq!(tui.popup.popup_kind, PopupKind::Error);
}

#[test]
fn browser_failure_sets_error_popup() {
    let mut tui = tui_with(1);
    tui.browser_open_failed();
    assert_eq!(tui.popup.popup_kind, PopupKind::Error);
    assert_eq!(tui.popup.popup_msg, "Redirect failed! Please try again");
}

#[test]
fn dismiss_key_closes_popup() {
    let mut tui = tui_with(1);
    tui.finish_download(false);
    assert!(tui.popup.show_popup);
    assert_eq!(tui.handle_key(KeyInput::DismissPopup), UiAction::Redraw);
    assert!(!tui.popup.show_popup);
}

#[test]
fn popup_new_is_hidden_info() {
    let p = Popup::new();
    assert!(!p.show_popup);
    assert_eq!(p.popup_kind, PopupKind::Info);
    assert_eq!(p.popup_msg, "");
}

#[test]
fn popup_kinds_map_to_colors() {
    let mut p = Popup::new();
    p.open("m".to_string(), PopupKind::Info);
    assert_eq!(p.get_para().color, PopupColor::Yellow);
    assert_eq!(p.get_para().title, "Info");
    p.open("m".to_string(), PopupKind::Success);
    assert_eq!(p.get_para().color, PopupColor::Green);
    assert_eq!(p.get_para().title, "Success");
    p.open("m".to_string(), PopupKind::Error);
    assert_eq!(p.get_para().color, PopupColor::Red);
    assert_eq!(p.get_para().title, "Error!");
    assert_eq!(p.get_para().msg, "m");
}

#[test]
fn centered_rect_centres_the_box() {
    let p = Popup::new();
    let r = p.centered_rect(80, 30, Rect { x: 0, y: 0, width: 100, height: 50 });
    assert_eq!(r, Rect { x: 10, y: 17, width: 80, height: 15 });
}
