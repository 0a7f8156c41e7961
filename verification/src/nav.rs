//! The interactive browsing state: a cursor over the result list, a scroll
//! offset into the current abstract, and a transient status popup.
//!
//! Every transition is a total function of the previous state and one logical
//! key press; navigation is clamped at both ends, always resets the scroll
//! offset and always clears the popup.

use vstd::prelude::*;
use crate::paper::PRZZIResult;
use crate::strutil::{contains_seq, contains_sub};

verus! {

/// The kind of a status popup.
#[derive(Clone, Copy, Debug, PartialEq, Eq, Structural)]
pub enum PopupKind {
    Info,
    Success,
    Error,
}

/// The colour a popup is drawn with: yellow for info, green for success,
/// red for error.
#[derive(Clone, Copy, Debug, PartialEq, Eq, Structural)]
pub enum PopupColor {
    Yellow,
    Green,
    Red,
}

/// The colour that belongs to each popup kind.
pub open spec fn color_of_kind(k: PopupKind) -> PopupColor {
    match k {
        PopupKind::Info => PopupColor::Yellow,
        PopupKind::Success => PopupColor::Green,
        PopupKind::Error => PopupColor::Red,
    }
}

/// The heading that belongs to each popup kind.
pub open spec fn title_of_kind(k: PopupKind) -> Seq<char> {
    match k {
        PopupKind::Info => "Info"@,
        PopupKind::Success => "Success"@,
        PopupKind::Error => "Error!"@,
    }
}

/// The transient status overlay.
pub struct Popup {
    pub show_popup: bool,
    pub popup_msg: String,
    pub popup_kind: PopupKind,
}

/// The popup as plain display data.
pub struct PopupView {
    pub title: String,
    pub msg: String,
    pub color: PopupColor,
}

/// A rectangle of terminal cells.
#[derive(Clone, Copy, Debug, PartialEq, Eq, Structural)]
pub struct Rect {
    pub x: u16,
    pub y: u16,
    pub width: u16,
    pub height: u16,
}

/// The rectangle covering the middle `percent_x` by `percent_y` of `r`.
pub open spec fn spec_centered_rect(percent_x: u16, percent_y: u16, r: Rect) -> Rect {
    Rect {
        x: (r.x + (r.width - r.width * percent_x / 100) / 2) as u16,
        y: (r.y + (r.height - r.height * percent_y / 100) / 2) as u16,
        width: (r.width * percent_x / 100) as u16,
        height: (r.height * percent_y / 100) as u16,
    }
}

impl Popup {
    /// A freshly created popup: hidden, with an empty info message.
    pub fn new() -> (r: Self)
        ensures
            !r.show_popup,
            r.popup_msg@ == Seq::<char>::empty(),
            r.popup_kind == PopupKind::Info,
    {
        Popup { show_popup: false, popup_msg: String::new(), popup_kind: PopupKind::Info }
    }

    /// Hides the popup; its message and kind are kept.
    pub fn close(&mut self)
        ensures
            !final(self).show_popup,
            final(self).popup_msg == old(self).popup_msg,
            final(self).popup_kind == old(self).popup_kind,
    {
        self.show_popup = false;
    }

    /// Shows the popup with the given message and kind.
    pub fn open(&mut self, msg: String, kind: PopupKind)
        ensures
            final(self).show_popup,
            final(self).popup_msg == msg,
            final(self).popup_kind == kind,
    {
        self.popup_kind = kind;
        self.popup_msg = msg;
        self.show_popup = true;
    }

    /// The popup as plain display data: heading, message and colour.
    pub fn get_para(&self) -> (r: PopupView)
        ensures
            r.title@ == title_of_kind(self.popup_kind),
            r.msg == self.popup_msg,
            r.color == color_of_kind(self.popup_kind),
    {
        let title = match self.popup_kind {
            PopupKind::Info => "Info",
            PopupKind::Success => "Success",
            PopupKind::Error => "Error!",
        };
        let color = match self.popup_kind {
            PopupKind::Info => PopupColor::Yellow,
            PopupKind::Success => PopupColor::Green,
            PopupKind::Error => PopupColor::Red,
        };
        PopupView { title: title.to_owned(), msg: self.popup_msg.clone(), color }
    }

    /// The rectangle covering the middle `percent_x` by `percent_y` of `r`,
    /// where the popup is drawn.
    pub fn centered_rect(&self, percent_x: u16, percent_y: u16, r: Rect) -> (c: Rect)
        requires
            percent_x <= 100,
            percent_y <= 100,
            r.x + r.width <= u16::MAX,
            r.y + r.height <= u16::MAX,
        ensures
            c == spec_centered_rect(percent_x, percent_y, r),
    {
        proof {
            assert(r.width * percent_x <= r.width * 100) by (nonlinear_arith)
                requires
                    percent_x <= 100,
            ;
            assert(r.height * percent_y <= r.height * 100) by (nonlinear_arith)
                requires
                    percent_y <= 100,
            ;
        }
        let w = ((r.width as u32) * (percent_x as u32) / 100) as u16;
        let h = ((r.height as u32) * (percent_y as u32) / 100) as u16;
        Rect { x: r.x + (r.width - w) / 2, y: r.y + (r.height - h) / 2, width: w, height: h }
    }
}

/// One logical key press, already decoded from the terminal driver.
#[derive(Clone, Copy, Debug, PartialEq, Eq, Structural)]
pub enum KeyInput {
    Quit,
    Next,
    Previous,
    OpenBrowser,
    Download,
    DismissPopup,
    ScrollUp,
    ScrollDown,
    Other,
}

/// What the surrounding loop must do after a transition.
#[derive(Clone, Copy, Debug, PartialEq, Eq, Structural)]
pub enum UiAction {
    /// Restore the terminal and leave the loop.
    Exit,
    /// Open the current paper's link in a browser, then redraw.
    OpenBrowser,
    /// Resolve and download the current paper, then redraw.
    Download,
    /// Only redraw.
    Redraw,
}

/// The interactive browsing state.
pub struct PRZZITUI {
    pub results: Vec<PRZZIResult>,
    pub result_index: usize,
    pub scroll: u16,
    pub popup: Popup,
}

/// Moving forward: the cursor steps up unless it is at the last entry, the
/// scroll offset is reset, and the popup is hidden.
pub open spec fn nav_next(pre: PRZZITUI, post: PRZZITUI) -> bool {
    &&& post.results == pre.results
    &&& post.result_index == (if pre.result_index + 1 < pre.results.len() {
        pre.result_index + 1 as int
    } else {
        pre.result_index as int
    })
    &&& post.scroll == 0
    &&& !post.popup.show_popup
    &&& post.popup.popup_msg == pre.popup.popup_msg
    &&& post.popup.popup_kind == pre.popup.popup_kind
}

/// Moving backward: the cursor steps down unless it is at the first entry,
/// the scroll offset is reset, and the popup is hidden.
pub open spec fn nav_previous(pre: PRZZITUI, post: PRZZITUI) -> bool {
    &&& post.results == pre.results
    &&& post.result_index == (if pre.result_index > 0 {
        pre.result_index - 1
    } else {
        0int
    })
    &&& post.scroll == 0
    &&& !post.popup.show_popup
    &&& post.popup.popup_msg == pre.popup.popup_msg
    &&& post.popup.popup_kind == pre.popup.popup_kind
}

impl PRZZITUI {
    /// The cursor stays inside the result list whenever the list is
    /// non-empty.
    pub open spec fn wf(&self) -> bool {
        self.results.len() > 0 ==> self.result_index < self.results.len()
    }

    /// The entry the cursor points at.
    pub open spec fn current(&self) -> PRZZIResult
        recommends
            self.results.len() > 0,
            self.wf(),
    {
        self.results@[self.result_index as int]
    }

    /// A freshly created browsing state: no results, cursor and scroll at
    /// zero, popup hidden.
    pub fn new() -> (r: Self)
        ensures
            r.results@ == Seq::<PRZZIResult>::empty(),
            r.result_index == 0,
            r.scroll == 0,
            !r.popup.show_popup,
            r.wf(),
    {
        PRZZITUI { results: Vec::new(), result_index: 0, scroll: 0, popup: Popup::new() }
    }

    /// Hands the state the results of a search. The cursor is left where it
    /// was; on a fresh state it is at the first entry.
    pub fn set_results(&mut self, results: Vec<PRZZIResult>)
        ensures
            final(self).results == results,
            final(self).result_index == old(self).result_index,
            final(self).scroll == old(self).scroll,
            final(self).popup == old(self).popup,
    {
        self.results = results;
    }

    /// Steps the cursor forward, clamped at the last entry; always resets
    /// the scroll offset and hides the popup.
    pub fn next_result(&mut self)
        requires
            old(self).wf(),
            old(self).results.len() > 0,
        ensures
            nav_next(*old(self), *final(self)),
            final(self).wf(),
    {
        if self.result_index + 1 < self.results.len() {
            self.result_index = self.result_index + 1;
        }
        self.scroll = 0;
        self.popup.close();
    }

    /// Steps the cursor backward, clamped at the first entry; always resets
    /// the scroll offset and hides the popup.
    pub fn previous_result(&mut self)
        requires
            old(self).wf(),
            old(self).results.len() > 0,
        ensures
            nav_previous(*old(self), *final(self)),
            final(self).wf(),
    {
        if self.result_index > 0 {
            self.result_index = self.result_index - 1;
        }
        self.scroll = 0;
        self.popup.close();
    }

    /// Scrolls the abstract up one line; at the top this is a no-op.
    pub fn scroll_up(&mut self)
        ensures
            final(self).scroll == (if old(self).scroll > 0 {
                old(self).scroll - 1
            } else {
                0int
            }),
            final(self).results == old(self).results,
            final(self).result_index == old(self).result_index,
            final(self).popup == old(self).popup,
    {
        if self.scroll > 0 {
            self.scroll = self.scroll - 1;
        }
    }

    /// Scrolls the abstract down one line; accepted from any state, up to
    /// the machine bound of the offset.
    pub fn scroll_down(&mut self)
        ensures
            final(self).scroll == (if old(self).scroll < u16::MAX {
                old(self).scroll + 1 as int
            } else {
                u16::MAX as int
            }),
            final(self).results == old(self).results,
            final(self).result_index == old(self).result_index,
            final(self).popup == old(self).popup,
    {
        if self.scroll < u16::MAX {
            self.scroll = self.scroll + 1;
        }
    }

    /// Hides the popup, leaving everything else in place.
    pub fn dismiss_popup(&mut self)
        ensures
            !final(self).popup.show_popup,
            final(self).popup.popup_msg == old(self).popup.popup_msg,
            final(self).popup.popup_kind == old(self).popup.popup_kind,
            final(self).results == old(self).results,
            final(self).result_index == old(self).result_index,
            final(self).scroll == old(self).scroll,
    {
        self.popup.close();
    }

    /// Records that opening the browser failed, as an error popup.
    pub fn browser_open_failed(&mut self)
        ensures
            final(self).popup.show_popup,
            final(self).popup.popup_kind == PopupKind::Error,
            final(self).popup.popup_msg@ == "Redirect failed! Please try again"@,
            final(self).results == old(self).results,
            final(self).result_index == old(self).result_index,
            final(self).scroll == old(self).scroll,
    {
        self.popup.open("Redirect failed! Please try again".to_owned(), PopupKind::Error);
    }

    /// The current link, when a download can be attempted on it: the
    /// resolver only handles DOI links.
    pub fn download_target(&self) -> (r: Option<String>)
        requires
            self.wf(),
            self.results.len() > 0,
        ensures
            match r {
                Some(u) => u == self.current().url && contains_seq(u@, "doi"@),
                None => !contains_seq(self.current().url@, "doi"@),
            },
    {
        let url = &self.results[self.result_index].url;
        if contains_sub(url.as_str(), "doi") {
            Some(url.clone())
        } else {
            None
        }
    }

    /// Records that the current paper has no link a download could use.
    pub fn download_unavailable(&mut self)
        ensures
            final(self).popup.show_popup,
            final(self).popup.popup_kind == PopupKind::Error,
            final(self).popup.popup_msg@ == "This paper doesnt have a valid DOI so a download isnt possible just yet :( If you think this is wrong, feel free to raise an issue \n Please try redirect instead"@,
            final(self).results == old(self).results,
            final(self).result_index == old(self).result_index,
            final(self).scroll == old(self).scroll,
    {
        self.popup.open(
            "This paper doesnt have a valid DOI so a download isnt possible just yet :( If you think this is wrong, feel free to raise an issue \n Please try redirect instead".to_owned(),
            PopupKind::Error,
        );
    }

    /// Records the outcome of a download attempt as a popup.
    pub fn finish_download(&mut self, succeeded: bool)
        ensures
            final(self).popup.show_popup,
            final(self).popup.popup_kind == (if succeeded {
                PopupKind::Success
            } else {
                PopupKind::Error
            }),
            succeeded ==> final(self).popup.popup_msg@ == "Download Complete :) !!"@,
            !succeeded ==> final(self).popup.popup_msg@
                == "Download failed! This paper is not available to download yet :( if you think this is wrong, raise a issue :) \n Please try redirecting instead"@,
            final(self).results == old(self).results,
            final(self).result_index == old(self).result_index,
            final(self).scroll == old(self).scroll,
    {
        if succeeded {
            self.popup.open("Download Complete :) !!".to_owned(), PopupKind::Success);
        } else {
            self.popup.open(
                "Download failed! This paper is not available to download yet :( if you think this is wrong, raise a issue :) \n Please try redirecting instead".to_owned(),
                PopupKind::Error,
            );
        }
    }

    /// One step of the interaction state machine: applies a key press to the
    /// state and says what the surrounding loop must do next.
    ///
    /// The download key opens the "attempting" popup at once, so that the
    /// loop can redraw before the blocking resolution starts.
    pub fn handle_key(&mut self, key: KeyInput) -> (a: UiAction)
        requires
            old(self).wf(),
            old(self).results.len() > 0,
        ensures
            final(self).wf(),
            final(self).results == old(self).results,
            match key {
                KeyInput::Quit => a == UiAction::Exit && *final(self) == *old(self),
                KeyInput::Next => a == UiAction::Redraw && nav_next(*old(self), *final(self)),
                KeyInput::Previous => a == UiAction::Redraw && nav_previous(
                    *old(self),
                    *final(self),
                ),
                KeyInput::OpenBrowser => a == UiAction::OpenBrowser && *final(self) == *old(
                    self,
                ),
                KeyInput::Download => a == UiAction::Download && final(self).popup.show_popup
                    && final(self).popup.popup_kind == PopupKind::Info
                    && final(self).popup.popup_msg@ == "Attempting to Download"@
                    && final(self).result_index == old(self).result_index
                    && final(self).scroll == old(self).scroll,
                KeyInput::DismissPopup => a == UiAction::Redraw && !final(self).popup.show_popup
                    && final(self).result_index == old(self).result_index
                    && final(self).scroll == old(self).scroll,
                KeyInput::ScrollUp => a == UiAction::Redraw && final(self).scroll == (
                if old(self).scroll > 0 {
                    old(self).scroll - 1
                } else {
                    0int
                }) && final(self).result_index == old(self).result_index
                    && final(self).popup == old(self).popup,
                KeyInput::ScrollDown => a == UiAction::Redraw && final(self).scroll == (
                if old(self).scroll < u16::MAX {
                    old(self).scroll + 1 as int
                } else {
                    u16::MAX as int
                }) && final(self).result_index == old(self).result_index
                    && final(self).popup == old(self).popup,
                KeyInput::Other => a == UiAction::Redraw && *final(self) == *old(self),
            },
    {
        match key {
            KeyInput::Quit => UiAction::Exit,
            KeyInput::Next => {
                self.next_result();
                UiAction::Redraw
            },
            KeyInput::Previous => {
                self.previous_result();
                UiAction::Redraw
            },
            KeyInput::OpenBrowser => UiAction::OpenBrowser,
            KeyInput::Download => {
                self.popup.open("Attempting to Download".to_owned(), PopupKind::Info);
                UiAction::Download
            },
            KeyInput::DismissPopup => {
                self.popup.close();
                UiAction::Redraw
            },
            KeyInput::ScrollUp => {
                self.scroll_up();
                UiAction::Redraw
            },
            KeyInput::ScrollDown => {
                self.scroll_down();
                UiAction::Redraw
            },
            KeyInput::Other => UiAction::Redraw,
        }
    }
}

} // verus!
