//! The output relay: what becomes of each read from the command's output.

use vstd::prelude::*;
use vstd::string::*;
use crate::pager::{Pager, PagerView};
use crate::scroll::viewport_rows;

verus! {

/// The outcome of one attempt to read a line from the command's output.
#[derive(Debug, PartialEq, Eq)]
pub enum ReadOutcome {
    /// A line was read; it is held as it came, line end included.
    Line(String),
    /// The stream has ended.
    End,
    /// The read failed, for this reason.
    Failed(String),
}

/// A `ReadOutcome` as plain values.
pub enum ReadOutcomeView {
    Line(Seq<char>),
    End,
    Failed(Seq<char>),
}

impl View for ReadOutcome {
    type V = ReadOutcomeView;

    open spec fn view(&self) -> ReadOutcomeView {
        match self {
            ReadOutcome::Line(line) => ReadOutcomeView::Line(line@),
            ReadOutcome::End => ReadOutcomeView::End,
            ReadOutcome::Failed(reason) => ReadOutcomeView::Failed(reason@),
        }
    }
}

/// The marker that is shown once the command's output has ended.
pub open spec fn end_marker() -> Seq<char> {
    "ZzzEOF"@
}

/// The line that the pager shows for a read: the line itself, the end marker,
/// or the reason of the failure behind `Error: `.
pub open spec fn relayed_line(outcome: ReadOutcomeView) -> Seq<char> {
    match outcome {
        ReadOutcomeView::Line(line) => line,
        ReadOutcomeView::End => end_marker(),
        ReadOutcomeView::Failed(reason) => "Error: "@ + reason,
    }
}

/// Puts the outcome of one read into the pager: one line is added, whatever
/// the outcome. Tells whether to read on, which is so until the stream ends
/// or a read fails.
pub fn relay(pager: &mut Pager, outcome: &ReadOutcome, size: (u16, u16)) -> (read_on: bool)
    ensures
        read_on == (outcome@ is Line),
        final(pager)@ == old(pager)@.appended(relayed_line(outcome@), viewport_rows(size)),
{
    match outcome {
        ReadOutcome::Line(line) => {
            pager.add(line.as_str(), size);
            true
        },
        ReadOutcome::End => {
            pager.add("ZzzEOF", size);
            false
        },
        ReadOutcome::Failed(reason) => {
            let mut line = "Error: ".to_owned();
            line.append(reason.as_str());
            pager.add(line.as_str(), size);
            false
        },
    }
}

} // verus!
