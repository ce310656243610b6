//! The built-in pager: a buffer of lines, a scroll offset and an input mode.

pub mod command_prompt;
pub mod input;
pub mod state;

use vstd::prelude::*;
use vstd::string::*;
use crate::screen::{frame, prompt_text, render};
use crate::scroll::{max_offset, max_scroll, scroll_target, scrolled, viewport_height, viewport_rows};
use self::input::{handle_key, motion, next_state, InputState, InputStateView, Key};
use self::state::{PagerState, PagerStateView};

verus! {

/// The mode a pager rests in between two keys: any but `Exit`, and a prompt
/// only with its cursor inside its text.
struct RestingMode {
    mode: InputState,
}

impl RestingMode {
    #[verifier::type_invariant]
    spec fn settled(self) -> bool {
        !(self.mode is Exit) && self.mode@.well_formed()
    }

    fn new(mode: InputState) -> (r: RestingMode)
        requires
            !(mode is Exit),
            mode@.well_formed(),
        ensures
            r.mode == mode,
    {
        RestingMode { mode }
    }

    fn get(&self) -> (mode: &InputState)
        ensures
            *mode == self.mode,
            !(mode is Exit),
            mode@.well_formed(),
    {
        proof {
            use_type_invariant(self);
        }
        &self.mode
    }
}

/// The pager's state: the lines it holds, how far it is scrolled, and the
/// input mode. It never rests in the mode `Exit`.
pub struct Pager {
    offset: (usize, usize),
    lines: Vec<String>,
    state: RestingMode,
}

/// A `Pager` as plain values.
pub struct PagerView {
    pub lines: Seq<Seq<char>>,
    /// Horizontal (reserved) and vertical offset.
    pub offset: (nat, nat),
    pub state: InputStateView,
}

impl PagerView {
    /// The pager before anything was added or pressed.
    pub open spec fn fresh() -> PagerView {
        PagerView {
            lines: Seq::empty(),
            offset: (0, 0),
            state: InputStateView::Free(PagerStateView::fresh(None)),
        }
    }

    /// The vertical offset after one more line arrived: a viewport that stood
    /// at the bottom follows the output, any other stays where it is.
    pub open spec fn followed(self, viewport: nat) -> nat {
        if self.offset.1 >= max_offset(self.lines.len(), viewport) {
            max_offset(self.lines.len() + 1, viewport)
        } else {
            self.offset.1
        }
    }

    /// This pager with `line` added at the end.
    pub open spec fn appended(self, line: Seq<char>, viewport: nat) -> PagerView {
        PagerView {
            lines: self.lines.push(line),
            offset: (self.offset.0, self.followed(viewport)),
            state: self.state,
        }
    }

    /// This pager without lines, at offset zero.
    pub open spec fn cleared(self) -> PagerView {
        PagerView { lines: Seq::empty(), offset: (0, 0), state: self.state }
    }

    /// This pager scrolled by `delta` lines.
    pub open spec fn slid(self, delta: int, viewport: nat) -> PagerView {
        PagerView {
            lines: self.lines,
            offset: (self.offset.0, scrolled(self.offset.1, delta, self.lines.len(), viewport)),
            state: self.state,
        }
    }

    /// This pager after a motion, if there was one.
    pub open spec fn moved(self, motion: Option<int>, viewport: nat) -> PagerView {
        match motion {
            Some(delta) => self.slid(delta, viewport),
            None => self,
        }
    }

    /// This pager after `key` was pressed: scrolled as the key asks, and in
    /// the mode that follows, unless that is `Exit`, which is never stored.
    pub open spec fn after_key(self, key: Key, viewport: nat) -> PagerView {
        let next = next_state(self.state, key);
        let moved = self.moved(motion(self.state, key, viewport), viewport);
        if next is Exit {
            moved
        } else {
            PagerView { lines: moved.lines, offset: moved.offset, state: next }
        }
    }

    /// What is drawn after the status indicator: the search prompt while it
    /// is open, nothing otherwise.
    pub open spec fn prompt(self) -> Seq<char> {
        match self.state {
            InputStateView::SearchPrompt(p) => prompt_text(p.prefix, p.input),
            _ => Seq::empty(),
        }
    }

    /// The whole text of one drawing on a terminal of the given size.
    pub open spec fn drawn(self, size: (u16, u16)) -> Seq<char> {
        frame(self.lines, self.offset.1, size) + self.prompt()
    }
}

impl View for Pager {
    type V = PagerView;

    closed spec fn view(&self) -> PagerView {
        PagerView {
            lines: self.lines.deep_view(),
            offset: (self.offset.0 as nat, self.offset.1 as nat),
            state: self.state.mode@,
        }
    }
}

impl Pager {
    /// A pager without lines, at the top, in free mode.
    pub fn new() -> (pager: Pager)
        ensures
            pager@ == PagerView::fresh(),
    {
        let pager = Pager {
            lines: Vec::new(),
            offset: (0, 0),
            state: RestingMode::new(InputState::Free(PagerState::new(None))),
        };
        assert(pager.lines.deep_view() =~= Seq::<Seq<char>>::empty());
        pager
    }

    /// The number of lines held.
    pub fn line_count(&self) -> (n: usize)
        ensures
            n == self@.lines.len(),
    {
        self.lines.len()
    }

    /// The lines held, oldest first.
    pub fn lines(&self) -> (lines: &Vec<String>)
        ensures
            lines.deep_view() == self@.lines,
    {
        &self.lines
    }

    /// The horizontal and the vertical offset.
    pub fn offset(&self) -> (offset: (usize, usize))
        ensures
            offset.0 == self@.offset.0,
            offset.1 == self@.offset.1,
    {
        self.offset
    }

    /// The input mode, which is never `Exit`.
    pub fn state(&self) -> (state: &InputState)
        ensures
            state@ == self@.state,
            !(state is Exit),
            state@.well_formed(),
    {
        self.state.get()
    }

    /// Adds a line at the end. A viewport that shows the end of the output
    /// keeps showing it; one that was scrolled up stays where it is.
    pub fn add(&mut self, line: &str, size: (u16, u16))
        ensures
            final(self)@ == old(self)@.appended(line@, viewport_rows(size)),
            final(self)@.offset.1 <= max_offset(final(self)@.lines.len(), viewport_rows(size)),
    {
        let viewport: usize = viewport_height(size);
        let at_bottom: bool = self.offset.1 >= max_scroll(self.lines.len(), viewport);
        let ghost before = self.lines.deep_view();
        self.lines.push(line.to_owned());
        assert(self.lines.deep_view() =~= before.push(line@));
        if at_bottom {
            self.offset.1 = max_scroll(self.lines.len(), viewport);
        }
    }

    /// What is drawn after the status indicator, appended to `buf`.
    pub fn draw_prompt(&self, buf: String) -> (out: String)
        ensures
            out@ == buf@ + self@.prompt(),
    {
        let mut out = buf;
        match self.state.get() {
            InputState::SearchPrompt(prompt) => {
                out.push(prompt.prefix);
                out.append(prompt.input.as_str());
                assert(out@ =~= buf@ + prompt_text(prompt.prefix, prompt.input@));
            },
            _ => {
                assert(out@ =~= buf@ + Seq::<char>::empty());
            },
        }
        out
    }

    /// The text that draws the pager on a terminal of the given size
    /// (columns, rows): the screen cleared, up to one screenful of lines from
    /// the offset on, the status indicator, and the prompt while it is open.
    pub fn draw(&self, size: (u16, u16)) -> (buf: String)
        ensures
            buf@ == self@.drawn(size),
    {
        let buf = render(&self.lines, self.offset.1, size);
        self.draw_prompt(buf)
    }

    /// Handles one key: dispatches it to the handler of the current mode and
    /// takes over the mode it returns. Tells whether the pager goes on, which
    /// it does until a key asks to exit.
    pub fn press(&mut self, key: &Key, size: (u16, u16)) -> (go_on: bool)
        ensures
            go_on == !(next_state(old(self)@.state, *key) is Exit),
            final(self)@ == old(self)@.after_key(*key, viewport_rows(size)),
    {
        let current = self.state.get().clone();
        match handle_key(self, &current, key, size) {
            InputState::Exit => false,
            next_state => {
                self.state = RestingMode::new(next_state);
                true
            },
        }
    }

    /// Scrolls by half a viewport, up or down.
    pub fn page(&mut self, up: bool, size: (u16, u16))
        ensures
            final(self)@ == old(self)@.slid(
                if up {
                    -(viewport_rows(size) as int / 2)
                } else {
                    viewport_rows(size) as int / 2
                },
                viewport_rows(size),
            ),
            final(self)@.offset.1 <= max_offset(final(self)@.lines.len(), viewport_rows(size)),
    {
        let half: i16 = (viewport_height(size) / 2) as i16;
        let amnt: i16 = if up { -half } else { half };
        self.slide((0, amnt), size);
    }

    /// Drops every line and goes back to offset zero.
    pub fn reset(&mut self)
        ensures
            final(self)@ == old(self)@.cleared(),
            final(self)@.lines.len() == 0,
            final(self)@.offset == (0nat, 0nat),
    {
        self.lines.clear();
        self.offset = (0, 0);
        assert(self.lines.deep_view() =~= Seq::<Seq<char>>::empty());
    }

    /// Scrolls by `diff.1` lines, down when positive, and keeps the offset in
    /// `[0, max_offset]`. The horizontal part of `diff` is reserved.
    pub fn slide(&mut self, diff: (i16, i16), size: (u16, u16))
        ensures
            final(self)@ == old(self)@.slid(diff.1 as int, viewport_rows(size)),
            final(self)@.offset.1 <= max_offset(final(self)@.lines.len(), viewport_rows(size)),
    {
        self.offset.1 = scroll_target(
            self.offset.1,
            diff.1,
            self.lines.len(),
            viewport_height(size),
        );
    }
}

} // verus!
