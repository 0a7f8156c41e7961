//! Rendering as pure data: each redraw reads the browsing state and the
//! current paper and produces a frame description; drawing it on a terminal
//! is the surrounding application's concern and has no effect on the state.

use vstd::prelude::*;
use crate::nav::{PRZZITUI, PopupView, Rect, spec_centered_rect};
use crate::strutil::{join_seqs, join_strings};

verus! {

/// The title block of a frame: the paper's title, year and authors, the
/// authors joined for display.
pub struct TitleView {
    pub title: String,
    pub year: usize,
    pub authors: String,
}

/// The abstract block of a frame: a fixed heading, the abstract's text, and
/// how many lines of it are scrolled away.
pub struct AbstractView {
    pub heading: String,
    pub text: String,
    pub scroll: u16,
}

/// One entry of the footer: a key and what it does.
pub struct KeyHint {
    pub key: String,
    pub action: String,
}

/// The popup overlay of a frame: its display data and where it is drawn.
pub struct PopupOverlay {
    pub view: PopupView,
    pub area: Rect,
}

/// One full frame: title block, abstract block, footer, and the popup
/// overlay when one is open.
pub struct FrameView {
    pub title: TitleView,
    pub abs: AbstractView,
    pub footer: Vec<KeyHint>,
    pub popup: Option<PopupOverlay>,
}

impl PRZZITUI {
    /// The title block of the current paper.
    pub fn draw_title(&self) -> (r: TitleView)
        requires
            self.wf(),
            self.results.len() > 0,
        ensures
            r.title == self.current().title,
            r.year == self.current().year,
            r.authors@ == join_seqs(self.current().authors.deep_view(), ", "@),
    {
        let p = &self.results[self.result_index];
        TitleView { title: p.title.clone(), year: p.year, authors: join_strings(&p.authors, ", ") }
    }

    /// The abstract block of the current paper, offset by the scroll state.
    pub fn draw_abstract(&self) -> (r: AbstractView)
        requires
            self.wf(),
            self.results.len() > 0,
        ensures
            r.heading@ == "Abstract"@,
            r.text == self.current().abs,
            r.scroll == self.scroll,
    {
        AbstractView {
            heading: "Abstract".to_owned(),
            text: self.results[self.result_index].abs.clone(),
            scroll: self.scroll,
        }
    }

    /// The fixed footer of key bindings; a hint for closing the popup is
    /// appended while one is open.
    pub fn draw_footer(&self) -> (r: Vec<KeyHint>)
        ensures
            r@.len() == (if self.popup.show_popup {
                6int
            } else {
                5int
            }),
            r@[0].key@ == "p: "@ && r@[0].action@ == "Previous"@,
            r@[1].key@ == "n: "@ && r@[1].action@ == "Next"@,
            r@[2].key@ == "Ctrl-r: "@ && r@[2].action@ == "Open in browser"@,
            r@[3].key@ == "Ctrl-d: "@ && r@[3].action@ == "Download paper"@,
            r@[4].key@ == "Down/Up: "@ && r@[4].action@ == "Scroll Abstract"@,
            self.popup.show_popup ==> r@[5].key@ == "q: "@ && r@[5].action@ == "Close Popup"@,
    {
        let mut r: Vec<KeyHint> = Vec::new();
        r.push(KeyHint { key: "p: ".to_owned(), action: "Previous".to_owned() });
        r.push(KeyHint { key: "n: ".to_owned(), action: "Next".to_owned() });
        r.push(KeyHint { key: "Ctrl-r: ".to_owned(), action: "Open in browser".to_owned() });
        r.push(KeyHint { key: "Ctrl-d: ".to_owned(), action: "Download paper".to_owned() });
        r.push(KeyHint { key: "Down/Up: ".to_owned(), action: "Scroll Abstract".to_owned() });
        if self.popup.show_popup {
            r.push(KeyHint { key: "q: ".to_owned(), action: "Close Popup".to_owned() });
        }
        r
    }

    /// One full frame for the given screen size. Pure: reads the state and
    /// the current paper, changes nothing.
    pub fn draw(&self, size: Rect) -> (r: FrameView)
        requires
            self.wf(),
            self.results.len() > 0,
            size.x + size.width <= u16::MAX,
            size.y + size.height <= u16::MAX,
        ensures
            r.title.title == self.current().title,
            r.title.year == self.current().year,
            r.title.authors@ == join_seqs(self.current().authors.deep_view(), ", "@),
            r.abs.text == self.current().abs,
            r.abs.scroll == self.scroll,
            (r.popup is Some) == self.popup.show_popup,
            (r.popup matches Some(o) ==> {
                &&& o.view.msg == self.popup.popup_msg
                &&& o.area == spec_centered_rect(80, 30, size)
            }),
    {
        let popup = if self.popup.show_popup {
            Some(PopupOverlay {
                view: self.popup.get_para(),
                area: self.popup.centered_rect(80, 30, size),
            })
        } else {
            None
        };
        FrameView {
            title: self.draw_title(),
            abs: self.draw_abstract(),
            footer: self.draw_footer(),
            popup,
        }
    }
}

/// A width clamped to what a terminal cell count can hold.
pub open spec fn clamp_width(i: int) -> int {
    if i > u16::MAX {
        u16::MAX as int
    } else {
        i
    }
}

/// The greedy line-wrap state after the given words: the finished lines,
/// the line being filled, and that line's width so far. A word is appended
/// to the open line while the line stays under `max_words` words and, with
/// the word and its trailing space, under `max_width` cells; otherwise the
/// open line is finished and the word starts the next one.
pub open spec fn wrap_state(words: Seq<Seq<char>>, max_words: int, max_width: int) -> (
    Seq<Seq<Seq<char>>>,
    Seq<Seq<char>>,
    int,
)
    decreases words.len(),
{
    if words.len() == 0 {
        (Seq::empty(), Seq::empty(), 0int)
    } else {
        let (lines, line, cur) = wrap_state(words.drop_last(), max_words, max_width);
        let w = words.last();
        let wlen = clamp_width(w.len() as int);
        let new_len = clamp_width(cur + wlen + 1);
        if line.len() < max_words && new_len < max_width {
            (lines, line.push(w), new_len)
        } else {
            (lines.push(line), seq![w], clamp_width(wlen + 1))
        }
    }
}

/// The greedy wrap of `words` into lines: the wrap state's finished lines
/// with the still-open line closing the sequence.
pub open spec fn spec_wrap(words: Seq<Seq<char>>, max_words: int, max_width: int) -> Seq<
    Seq<Seq<char>>,
> {
    let (lines, line, cur) = wrap_state(words, max_words, max_width);
    lines.push(line)
}

/// Wraps words greedily into lines of at most `max_words` words and fewer
/// than `max_width` cells, counting one trailing space per word.
pub fn wrap_words(words: &Vec<String>, max_words: usize, max_width: u16) -> (r: Vec<Vec<String>>)
    ensures
        r.deep_view() == spec_wrap(words.deep_view(), max_words as int, max_width as int),
{
    let ghost ws = words.deep_view();
    let mut lines: Vec<Vec<String>> = Vec::new();
    let mut line: Vec<String> = Vec::new();
    let mut cur: u16 = 0;
    let mut i: usize = 0;
    while i < words.len()
        invariant
            ws == words.deep_view(),
            i <= ws.len(),
            (lines.deep_view(), line.deep_view(), cur as int) == wrap_state(
                ws.take(i as int),
                max_words as int,
                max_width as int,
            ),
        decreases words.len() - i,
    {
        let wl = words[i].as_str().unicode_len();
        let wl16: u16 = if wl >= u16::MAX as usize {
            u16::MAX
        } else {
            wl as u16
        };
        let sum: u32 = cur as u32 + wl16 as u32 + 1;
        let new_len: u16 = if sum > u16::MAX as u32 {
            u16::MAX
        } else {
            sum as u16
        };
        proof {
            assert(ws.take(i + 1).drop_last() =~= ws.take(i as int));
            assert(ws.take(i + 1).last() == ws[i as int]);
        }
        if line.len() < max_words && new_len < max_width {
            line.push(words[i].clone());
            cur = new_len;
            proof {
                assert(line.deep_view() =~= wrap_state(
                    ws.take(i + 1),
                    max_words as int,
                    max_width as int,
                ).1);
            }
        } else {
            lines.push(line);
            line = Vec::new();
            line.push(words[i].clone());
            let wsum: u32 = wl16 as u32 + 1;
            cur = if wsum > u16::MAX as u32 {
                u16::MAX
            } else {
                wsum as u16
            };
            proof {
                assert(lines.deep_view() =~= wrap_state(
                    ws.take(i + 1),
                    max_words as int,
                    max_width as int,
                ).0);
                assert(line.deep_view() =~= wrap_state(
                    ws.take(i + 1),
                    max_words as int,
                    max_width as int,
                ).1);
            }
        }
        i += 1;
    }
    proof {
        assert(ws.take(ws.len() as int) =~= ws);
    }
    lines.push(line);
    proof {
        assert(lines.deep_view() =~= spec_wrap(ws, max_words as int, max_width as int));
    }
    lines
}

/// One rendered line's place on the screen, in the line-oriented renderer.
#[derive(Clone, Copy, Debug, PartialEq, Eq, Structural)]
pub struct LinePosition {
    pub x: u16,
    pub y: u16,
    pub len: u16,
}

/// A cursor over the rendered lines: which line it is on and how far into
/// it, clamped to the line layout on every move.
pub struct Cursor {
    pub lines: Vec<LinePosition>,
    pub current: usize,
    pub current_column: u16,
}

impl Cursor {
    /// A fresh cursor: no lines, at the origin.
    pub fn new() -> (r: Cursor)
        ensures
            r.lines@ == Seq::<LinePosition>::empty(),
            r.current == 0,
            r.current_column == 0,
    {
        Cursor { lines: Vec::new(), current: 0, current_column: 0 }
    }

    /// The screen cell the cursor is on: its line's start, moved right by
    /// the column.
    pub fn get_position(&self) -> (r: (u16, u16))
        requires
            self.current < self.lines.len(),
            self.lines@[self.current as int].x + self.current_column <= u16::MAX,
        ensures
            r.0 == self.lines@[self.current as int].x + self.current_column,
            r.1 == self.lines@[self.current as int].y,
    {
        let line = self.lines[self.current];
        (line.x + self.current_column, line.y)
    }

    /// Moves one line up; at the first line this is a no-op.
    pub fn move_up(&mut self)
        ensures
            final(self).current == (if old(self).current > 0 {
                old(self).current - 1
            } else {
                0int
            }),
            final(self).lines == old(self).lines,
            final(self).current_column == old(self).current_column,
    {
        if self.current > 0 {
            self.current = self.current - 1;
        }
    }

    /// Moves one line down; at the last line this is a no-op.
    pub fn move_down(&mut self)
        requires
            old(self).lines.len() > 0,
        ensures
            final(self).current == (if old(self).current + 1 < old(self).lines.len() {
                old(self).current + 1 as int
            } else {
                old(self).current as int
            }),
            final(self).lines == old(self).lines,
            final(self).current_column == old(self).current_column,
    {
        if self.current < self.lines.len() - 1 {
            self.current = self.current + 1;
        }
    }

    /// Moves one column left; at the line's start this is a no-op.
    pub fn move_left(&mut self)
        ensures
            final(self).current_column == (if old(self).current_column > 0 {
                old(self).current_column - 1
            } else {
                0int
            }),
            final(self).lines == old(self).lines,
            final(self).current == old(self).current,
    {
        if self.current_column > 0 {
            self.current_column = self.current_column - 1;
        }
    }

    /// Moves one column right, clamped to the current line's length.
    pub fn move_right(&mut self)
        requires
            old(self).current < old(self).lines.len(),
        ensures
            final(self).current_column == (if old(self).current_column < old(self).lines@[old(
                self,
            ).current as int].len {
                old(self).current_column + 1 as int
            } else {
                old(self).current_column as int
            }),
            final(self).lines == old(self).lines,
            final(self).current == old(self).current,
    {
        if self.current_column < self.lines[self.current].len {
            self.current_column = self.current_column + 1;
        }
    }
}

} // verus!
