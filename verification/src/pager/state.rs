//! What the pager remembers while the user moves freely through the output.

use vstd::prelude::*;
use crate::text::{clone_option_text, option_text};

verus! {

/// User input tracker for the main pager input state.
#[derive(Debug, PartialEq, Eq)]
pub struct PagerState {
    search: Option<String>,
    current_line: usize,
    current_pos: usize,
}

/// A `PagerState` as plain values.
pub struct PagerStateView {
    pub search: Option<Seq<char>>,
    pub current_line: nat,
    pub current_pos: nat,
}

impl PagerStateView {
    /// The state that holds `search` and points at the very first position.
    pub open spec fn fresh(search: Option<Seq<char>>) -> PagerStateView {
        PagerStateView { search, current_line: 0, current_pos: 0 }
    }
}

impl View for PagerState {
    type V = PagerStateView;

    closed spec fn view(&self) -> PagerStateView {
        PagerStateView {
            search: option_text(self.search),
            current_line: self.current_line as nat,
            current_pos: self.current_pos as nat,
        }
    }
}

impl Clone for PagerState {
    fn clone(&self) -> (r: PagerState)
        ensures
            r@ == self@,
    {
        PagerState {
            search: clone_option_text(&self.search),
            current_line: self.current_line,
            current_pos: self.current_pos,
        }
    }
}

impl PagerState {
    /// Create an empty PagerState.
    pub fn new(search: Option<String>) -> (r: PagerState)
        ensures
            r@ == PagerStateView::fresh(option_text(search)),
    {
        PagerState { search, current_line: 0, current_pos: 0 }
    }

    /// The committed search term, if there is one.
    pub fn search(&self) -> (r: &Option<String>)
        ensures
            option_text(*r) == self@.search,
    {
        &self.search
    }

    /// The line the state points at.
    pub fn current_line(&self) -> (r: usize)
        ensures
            r == self@.current_line,
    {
        self.current_line
    }

    /// The position in that line.
    pub fn current_pos(&self) -> (r: usize)
        ensures
            r == self@.current_pos,
    {
        self.current_pos
    }
}

} // verus!
