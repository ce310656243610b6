//! The one-line prompt in which a search term is typed.

use vstd::prelude::*;
use vstd::string::*;
use super::state::{PagerState, PagerStateView};

verus! {

/// A prompt that is being edited, and the state to go back to when it is
/// cancelled.
#[derive(Debug, PartialEq, Eq)]
pub struct CommandPrompt {
    pub previous_state: PagerState,
    pub prefix: char,
    pub input: String,
    pub pos: usize,
}

/// A `CommandPrompt` as plain values.
pub struct CommandPromptView {
    pub previous_state: PagerStateView,
    pub prefix: char,
    pub input: Seq<char>,
    pub pos: nat,
}

impl CommandPromptView {
    /// The empty prompt opened from `previous_state`.
    pub open spec fn empty(previous_state: PagerStateView, prefix: char) -> CommandPromptView {
        CommandPromptView { previous_state, prefix, input: Seq::empty(), pos: 0 }
    }

    /// The cursor stands inside the text or right behind it.
    pub open spec fn well_formed(self) -> bool {
        self.pos <= self.input.len()
    }

    /// This prompt with `c` typed at the cursor, and the cursor behind it.
    pub open spec fn appended(self, c: char) -> CommandPromptView {
        CommandPromptView {
            previous_state: self.previous_state,
            prefix: self.prefix,
            input: self.input.insert(self.pos as int, c),
            pos: self.pos + 1,
        }
    }
}

impl View for CommandPrompt {
    type V = CommandPromptView;

    open spec fn view(&self) -> CommandPromptView {
        CommandPromptView {
            previous_state: self.previous_state@,
            prefix: self.prefix,
            input: self.input@,
            pos: self.pos as nat,
        }
    }
}

impl Clone for CommandPrompt {
    fn clone(&self) -> (r: CommandPrompt)
        ensures
            r@ == self@,
    {
        CommandPrompt {
            previous_state: self.previous_state.clone(),
            prefix: self.prefix,
            input: self.input.clone(),
            pos: self.pos,
        }
    }
}

impl CommandPrompt {
    /// Create an empty CommandPrompt.
    pub fn new(previous_state: PagerState, prefix: char) -> (r: CommandPrompt)
        ensures
            r@ == CommandPromptView::empty(previous_state@, prefix),
            r@.well_formed(),
    {
        CommandPrompt { previous_state, prefix, input: String::new(), pos: 0 }
    }

    /// Make a new prompt with the given character inserted where cursor currently is.
    pub fn append(&self, c: char) -> (r: CommandPrompt)
        requires
            self@.well_formed(),
        ensures
            r@ == self@.appended(c),
            r@.well_formed(),
    {
        let text = self.input.as_str();
        let len: usize = text.unicode_len();
        let mut input = text.substring_char(0, self.pos).to_owned();
        input.push(c);
        input.append(text.substring_char(self.pos, len));
        // The new text has a length, so the cursor behind `c` has a position.
        let grown: usize = input.as_str().unicode_len();
        assert(input@ =~= self.input@.insert(self.pos as int, c));
        assert(grown == len + 1);
        CommandPrompt {
            previous_state: self.previous_state.clone(),
            prefix: self.prefix,
            input,
            pos: self.pos + 1,
        }
    }
}

} // verus!
