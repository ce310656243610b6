//! The pager's input modes and what each key does in them.

use vstd::prelude::*;
use crate::scroll::viewport_rows;
use super::command_prompt::{CommandPrompt, CommandPromptView};
use super::state::{PagerState, PagerStateView};
use super::Pager;

verus! {

/// A key press, as a terminal reports it.
#[derive(Clone, Copy, Debug, PartialEq, Eq)]
pub enum Key {
    /// Backspace.
    Backspace,
    /// Left arrow.
    Left,
    /// Right arrow.
    Right,
    /// Up arrow.
    Up,
    /// Down arrow.
    Down,
    /// Home key.
    Home,
    /// End key.
    End,
    /// Page Up key.
    PageUp,
    /// Page Down key.
    PageDown,
    /// Backward Tab key.
    BackTab,
    /// Delete key.
    Delete,
    /// Insert key.
    Insert,
    /// A function key.
    F(u8),
    /// Normal character.
    Char(char),
    /// Alt modified character.
    Alt(char),
    /// Ctrl modified character.
    Ctrl(char),
    /// Null byte.
    Null,
    /// Esc key.
    Esc,
}

/// Top-level tracking for the state of the pager input system.
#[derive(Debug, PartialEq, Eq)]
pub enum InputState {
    /// The main pager state, contains other details to track input.
    Free(PagerState),
    /// The command prompt is setting up a search
    SearchPrompt(CommandPrompt),
    /// User asked to exit.
    Exit,
}

/// An `InputState` as plain values.
pub enum InputStateView {
    Free(PagerStateView),
    SearchPrompt(CommandPromptView),
    Exit,
}

impl InputStateView {
    /// A prompt, where there is one, has its cursor inside its text.
    pub open spec fn well_formed(self) -> bool {
        self matches InputStateView::SearchPrompt(prompt) ==> prompt.well_formed()
    }
}

impl View for InputState {
    type V = InputStateView;

    open spec fn view(&self) -> InputStateView {
        match self {
            InputState::Free(state) => InputStateView::Free(state@),
            InputState::SearchPrompt(prompt) => InputStateView::SearchPrompt(prompt@),
            InputState::Exit => InputStateView::Exit,
        }
    }
}

impl Clone for InputState {
    fn clone(&self) -> (r: InputState)
        ensures
            r@ == self@,
    {
        match self {
            InputState::Free(state) => InputState::Free(state.clone()),
            InputState::SearchPrompt(prompt) => InputState::SearchPrompt(prompt.clone()),
            InputState::Exit => InputState::Exit,
        }
    }
}

/// The mode after `key` was pressed while the search prompt was open: enter
/// commits the text as the search term, any other character is typed into the
/// prompt, and escape or any other key goes back to where the prompt was
/// opened from.
pub open spec fn search_next(prompt: CommandPromptView, key: Key) -> InputStateView {
    match key {
        Key::Char(c) => if c == '\n' {
            InputStateView::Free(PagerStateView::fresh(Some(prompt.input)))
        } else {
            InputStateView::SearchPrompt(prompt.appended(c))
        },
        _ => InputStateView::Free(prompt.previous_state),
    }
}

/// The mode after `key` was pressed in free mode: `/` opens the search
/// prompt, `q` and ctrl-c ask to exit, every other key stays.
pub open spec fn free_next(state: PagerStateView, key: Key) -> InputStateView {
    match key {
        Key::Char(c) => if c == '/' {
            InputStateView::SearchPrompt(CommandPromptView::empty(state, '/'))
        } else if c == 'q' {
            InputStateView::Exit
        } else {
            InputStateView::Free(state)
        },
        Key::Ctrl(c) => if c == 'c' {
            InputStateView::Exit
        } else {
            InputStateView::Free(state)
        },
        _ => InputStateView::Free(state),
    }
}

/// The lines by which `key` scrolls in free mode (down when positive) on a
/// viewport of `viewport` rows: one for `j`, `k` and the arrows, half the
/// viewport for the page keys; `None` for a key that does not scroll.
pub open spec fn free_motion(key: Key, viewport: nat) -> Option<int> {
    match key {
        Key::Char(c) => if c == 'j' {
            Some(1)
        } else if c == 'k' {
            Some(-1)
        } else {
            None
        },
        Key::Down => Some(1),
        Key::Up => Some(-1),
        Key::PageUp => Some(-(viewport as int / 2)),
        Key::PageDown => Some(viewport as int / 2),
        _ => None,
    }
}

/// The mode that follows `state` when `key` is pressed.
pub open spec fn next_state(state: InputStateView, key: Key) -> InputStateView {
    match state {
        InputStateView::Free(s) => free_next(s, key),
        InputStateView::SearchPrompt(prompt) => search_next(prompt, key),
        InputStateView::Exit => InputStateView::Exit,
    }
}

/// The scrolling that `key` asks for in `state`: only free mode scrolls.
pub open spec fn motion(state: InputStateView, key: Key, viewport: nat) -> Option<int> {
    match state {
        InputStateView::Free(_) => free_motion(key, viewport),
        _ => None,
    }
}

/// Opening the search prompt from free mode and cancelling it with escape
/// leads back to exactly the free state it was opened from: nothing of the
/// prompt is retained.
pub proof fn cancelled_search_returns(state: PagerStateView)
    ensures
        next_state(next_state(InputStateView::Free(state), Key::Char('/')), Key::Esc)
            == InputStateView::Free(state),
{
}

/// Whatever was typed into the prompt, escape leads back to the state the
/// prompt was opened from.
pub proof fn escape_drops_the_prompt(prompt: CommandPromptView)
    ensures
        next_state(InputStateView::SearchPrompt(prompt), Key::Esc) == InputStateView::Free(
            prompt.previous_state,
        ),
{
}

/// Dispatches `key` to the handler of the mode `state`, and returns the mode
/// that follows. Nothing follows `Exit` but `Exit`.
pub fn handle_key(pager: &mut Pager, state: &InputState, key: &Key, size: (u16, u16)) -> (next:
    InputState)
    requires
        state@.well_formed(),
    ensures
        next@ == next_state(state@, *key),
        next@.well_formed(),
        final(pager)@ == old(pager)@.moved(
            motion(state@, *key, viewport_rows(size)),
            viewport_rows(size),
        ),
{
    match state {
        InputState::SearchPrompt(prompt) => search_handler(&*pager, prompt, key),
        InputState::Free(s) => free_handler(pager, s, key, size),
        InputState::Exit => InputState::Exit,
    }
}

/// A key pressed while the search prompt is open. The pager is left as it is.
pub fn search_handler(_pager: &Pager, prompt: &CommandPrompt, key: &Key) -> (next: InputState)
    requires
        prompt@.well_formed(),
    ensures
        next@ == search_next(prompt@, *key),
        next@.well_formed(),
{
    match key {
        Key::Char('\n') => InputState::Free(PagerState::new(Some(prompt.input.clone()))),
        Key::Esc => InputState::Free(prompt.previous_state.clone()),
        Key::Char(c) => InputState::SearchPrompt(prompt.append(*c)),
        _ => InputState::Free(prompt.previous_state.clone()),
    }
}

/// A key pressed in free mode: scrolls the pager where the key asks for it.
pub fn free_handler(pager: &mut Pager, state: &PagerState, key: &Key, size: (u16, u16)) -> (next:
    InputState)
    ensures
        next@ == free_next(state@, *key),
        next@.well_formed(),
        final(pager)@ == old(pager)@.moved(
            free_motion(*key, viewport_rows(size)),
            viewport_rows(size),
        ),
{
    match key {
        Key::Char('/') => {
            return InputState::SearchPrompt(CommandPrompt::new(state.clone(), '/'));
        },
        Key::Ctrl('c') => {
            return InputState::Exit;
        },
        Key::Char('q') => {
            return InputState::Exit;
        },
        Key::Char('j') => pager.slide((0, 1), size),
        Key::Char('k') => pager.slide((0, -1), size),
        Key::Down => pager.slide((0, 1), size),
        Key::Up => pager.slide((0, -1), size),
        Key::PageUp => pager.page(true, size),
        Key::PageDown => pager.page(false, size),
        _ => {},
    }
    InputState::Free(state.clone())
}

} // verus!
