//! A plain pager: lines, a scroll offset, and free movement only.

use vstd::prelude::*;
use crate::pager::input::{free_motion, Key};
use crate::screen::{frame, render};
use crate::scroll::{max_offset, max_scroll, scroll_target, scrolled, viewport_height, viewport_rows};

verus! {

/// The input modes of the plain pager. It is made in `Free` and stays there.
#[derive(Debug, PartialEq, Eq)]
pub enum InputState {
    SearchPrompt(String),
    CommandPrompt(String),
    Free,
    Exit,
}

/// An `InputState` as plain values.
pub enum InputStateView {
    SearchPrompt(Seq<char>),
    CommandPrompt(Seq<char>),
    Free,
    Exit,
}

impl View for InputState {
    type V = InputStateView;

    open spec fn view(&self) -> InputStateView {
        match self {
            InputState::SearchPrompt(text) => InputStateView::SearchPrompt(text@),
            InputState::CommandPrompt(text) => InputStateView::CommandPrompt(text@),
            InputState::Free => InputStateView::Free,
            InputState::Exit => InputStateView::Exit,
        }
    }
}

/// The mode that a key pressed in free mode asks for: `q` and ctrl-c ask to
/// exit, every other key stays in free mode.
pub open spec fn free_next(key: Key) -> InputStateView {
    match key {
        Key::Char(c) => if c == 'q' {
            InputStateView::Exit
        } else {
            InputStateView::Free
        },
        Key::Ctrl(c) => if c == 'c' {
            InputStateView::Exit
        } else {
            InputStateView::Free
        },
        _ => InputStateView::Free,
    }
}

/// The plain pager's state.
pub struct Pager2 {
    offset: (usize, usize),
    lines: Vec<String>,
    input_state: InputState,
}

/// A `Pager2` as plain values.
pub struct Pager2View {
    pub lines: Seq<Seq<char>>,
    /// Horizontal (reserved) and vertical offset.
    pub offset: (nat, nat),
    pub state: InputStateView,
}

impl Pager2View {
    /// The pager before anything was added or pressed.
    pub open spec fn fresh() -> Pager2View {
        Pager2View { lines: Seq::empty(), offset: (0, 0), state: InputStateView::Free }
    }

    /// The vertical offset after one more line arrived: a viewport that stood
    /// at the bottom follows the output, any other stays where it is.
    pub open spec fn followed(self, viewport: nat) -> nat {
        if self.offset.1 >= max_offset(self.lines.len(), viewport) {
            max_offset(self.lines.len() + 1, viewport)
        } else {
            self.offset.1
        }
    }

    /// This pager with `line` added at the end.
    pub open spec fn appended(self, line: Seq<char>, viewport: nat) -> Pager2View {
        Pager2View {
            lines: self.lines.push(line),
            offset: (self.offset.0, self.followed(viewport)),
            state: self.state,
        }
    }

    /// This pager without lines, at offset zero.
    pub open spec fn cleared(self) -> Pager2View {
        Pager2View { lines: Seq::empty(), offset: (0, 0), state: self.state }
    }

    /// This pager scrolled by `delta` lines.
    pub open spec fn slid(self, delta: int, viewport: nat) -> Pager2View {
        Pager2View {
            lines: self.lines,
            offset: (self.offset.0, scrolled(self.offset.1, delta, self.lines.len(), viewport)),
            state: self.state,
        }
    }

    /// This pager after a motion, if there was one.
    pub open spec fn moved(self, motion: Option<int>, viewport: nat) -> Pager2View {
        match motion {
            Some(delta) => self.slid(delta, viewport),
            None => self,
        }
    }
}

impl View for Pager2 {
    type V = Pager2View;

    closed spec fn view(&self) -> Pager2View {
        Pager2View {
            lines: self.lines.deep_view(),
            offset: (self.offset.0 as nat, self.offset.1 as nat),
            state: self.input_state@,
        }
    }
}

impl Pager2 {
    /// A pager without lines, at the top, in free mode.
    pub fn new() -> (pager: Pager2)
        ensures
            pager@ == Pager2View::fresh(),
    {
        let pager = Pager2 { lines: Vec::new(), offset: (0, 0), input_state: InputState::Free };
        assert(pager.lines.deep_view() =~= Seq::<Seq<char>>::empty());
        pager
    }

    /// The lines held, oldest first.
    pub fn lines(&self) -> (lines: &Vec<String>)
        ensures
            lines.deep_view() == self@.lines,
    {
        &self.lines
    }

    /// The input mode.
    pub fn state(&self) -> (state: &InputState)
        ensures
            state@ == self@.state,
    {
        &self.input_state
    }

    /// The horizontal and the vertical offset.
    pub fn offset(&self) -> (offset: (usize, usize))
        ensures
            offset.0 == self@.offset.0,
            offset.1 == self@.offset.1,
    {
        self.offset
    }

    /// Adds a line at the end. A viewport that shows the end of the output
    /// keeps showing it; one that was scrolled up stays where it is.
    pub fn add(&mut self, line: &str, size: (u16, u16))
        ensures
            final(self)@ == old(self)@.appended(line@, viewport_rows(size)),
            final(self)@.offset.1 <= max_offset(final(self)@.lines.len(), viewport_rows(size)),
    {
        let viewport: usize = viewport_height(size);
        let at_bottom: bool = self.offset.1 >= max_scroll(self.lines.len(), viewport);
        let ghost before = self.lines.deep_view();
        self.lines.push(line.to_owned());
        assert(self.lines.deep_view() =~= before.push(line@));
        if at_bottom {
            self.offset.1 = max_scroll(self.lines.len(), viewport);
        }
    }

    /// The text that draws the pager on a terminal of the given size.
    pub fn draw(&self, size: (u16, u16)) -> (buf: String)
        ensures
            buf@ == frame(self@.lines, self@.offset.1, size),
    {
        self.draw_base(size)
    }

    /// The screen cleared, up to one screenful of lines from the offset on,
    /// and the status indicator.
    pub fn draw_base(&self, size: (u16, u16)) -> (buf: String)
        ensures
            buf@ == frame(self@.lines, self@.offset.1, size),
    {
        render(&self.lines, self.offset.1, size)
    }

    /// A key pressed in free mode: scrolls where the key asks for it, and
    /// returns the mode the key asks for.
    pub fn free_handler(&mut self, key: &Key, size: (u16, u16)) -> (next: InputState)
        ensures
            next@ == free_next(*key),
            final(self)@ == old(self)@.moved(
                free_motion(*key, viewport_rows(size)),
                viewport_rows(size),
            ),
    {
        match key {
            Key::Ctrl('c') => {
                return InputState::Exit;
            },
            Key::Char('q') => {
                return InputState::Exit;
            },
            Key::Char('j') => self.slide((0, 1), size),
            Key::Char('k') => self.slide((0, -1), size),
            Key::Down => self.slide((0, 1), size),
            Key::Up => self.slide((0, -1), size),
            Key::PageUp => self.page(true, size),
            Key::PageDown => self.page(false, size),
            _ => {},
        }
        InputState::Free
    }

    /// Handles one key with the free handler, the only one there is. Tells
    /// whether the pager goes on, which it does until a key asks to exit; the
    /// mode itself stays.
    pub fn press(&mut self, key: &Key, size: (u16, u16)) -> (go_on: bool)
        ensures
            go_on == !(free_next(*key) is Exit),
            final(self)@ == old(self)@.moved(
                free_motion(*key, viewport_rows(size)),
                viewport_rows(size),
            ),
    {
        match self.free_handler(key, size) {
            InputState::Exit => false,
            _ => true,
        }
    }

    /// Scrolls by half a viewport, up or down.
    pub fn page(&mut self, up: bool, size: (u16, u16))
        ensures
            final(self)@ == old(self)@.slid(
                if up {
                    -(viewport_rows(size) as int / 2)
                } else {
                    viewport_rows(size) as int / 2
                },
                viewport_rows(size),
            ),
            final(self)@.offset.1 <= max_offset(final(self)@.lines.len(), viewport_rows(size)),
    {
        let half: i16 = (viewport_height(size) / 2) as i16;
        let amnt: i16 = if up { -half } else { half };
        self.slide((0, amnt), size);
    }

    /// Drops every line and goes back to offset zero.
    pub fn reset(&mut self)
        ensures
            final(self)@ == old(self)@.cleared(),
            final(self)@.lines.len() == 0,
            final(self)@.offset == (0nat, 0nat),
    {
        self.lines.clear();
        self.offset = (0, 0);
        assert(self.lines.deep_view() =~= Seq::<Seq<char>>::empty());
    }

    /// Scrolls by `diff.1` lines, down when positive, and keeps the offset in
    /// `[0, max_offset]`. The horizontal part of `diff` is reserved.
    pub fn slide(&mut self, diff: (i16, i16), size: (u16, u16))
        ensures
            final(self)@ == old(self)@.slid(diff.1 as int, viewport_rows(size)),
            final(self)@.offset.1 <= max_offset(final(self)@.lines.len(), viewport_rows(size)),
    {
        self.offset.1 = scroll_target(
            self.offset.1,
            diff.1,
            self.lines.len(),
            viewport_height(size),
        );
    }
}

} // verus!
