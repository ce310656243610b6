//! What the pager writes to the terminal: escape sequences and whole frames.

use vstd::prelude::*;
use vstd::string::*;
use crate::scroll::{viewport_height, viewport_rows};
use crate::text::{decimal, push_decimal};

verus! {

/// The control sequence introducer, ESC `[`.
pub open spec fn csi() -> Seq<char> {
    seq!['\u{1b}', '[']
}

/// The sequence that moves the cursor to column `x` of row `y`, both counted
/// from one.
pub open spec fn goto_sequence(x: u16, y: u16) -> Seq<char> {
    csi() + decimal(y as nat) + seq![';'] + decimal(x as nat) + seq!['H']
}

/// The sequence that clears the whole screen.
pub open spec fn clear_sequence() -> Seq<char> {
    csi() + seq!['2', 'J']
}

/// The three components of a true colour, separated by semicolons.
pub open spec fn rgb_parameters(r: u8, g: u8, b: u8) -> Seq<char> {
    decimal(r as nat) + seq![';'] + decimal(g as nat) + seq![';'] + decimal(b as nat)
}

/// The sequence that sets the foreground to a true colour.
pub open spec fn fg_sequence(r: u8, g: u8, b: u8) -> Seq<char> {
    csi() + seq!['3', '8', ';', '2', ';'] + rgb_parameters(r, g, b) + seq!['m']
}

/// The sequence that sets the background to a true colour.
pub open spec fn bg_sequence(r: u8, g: u8, b: u8) -> Seq<char> {
    csi() + seq!['4', '8', ';', '2', ';'] + rgb_parameters(r, g, b) + seq!['m']
}

/// The sequence that puts the foreground back to the terminal's default.
pub open spec fn fg_reset_sequence() -> Seq<char> {
    csi() + seq!['3', '9', 'm']
}

/// The sequence that puts the background back to the terminal's default.
pub open spec fn bg_reset_sequence() -> Seq<char> {
    csi() + seq!['4', '9', 'm']
}

/// `termion::cursor::Goto(x, y)` as text. Its `Display` writes ESC `[`, the
/// row, a semicolon, the column and `H`, both numbers in decimal; it refuses
/// the position (0, 0) in debug builds, which is left out here.
#[verifier::external_body]
pub(crate) fn cursor_goto(x: u16, y: u16) -> (s: String)
    requires
        x != 0 || y != 0,
    ensures
        s@ == goto_sequence(x, y),
{
    format!("{}", termion::cursor::Goto(x, y))
}

/// `termion::clear::All` as text: ESC `[2J`.
#[verifier::external_body]
pub(crate) fn clear_all() -> (s: String)
    ensures
        s@ == clear_sequence(),
{
    format!("{}", termion::clear::All)
}

/// `termion::color::Fg` of `termion::color::Rgb(r, g, b)` as text: ESC
/// `[38;2;`, the three components in decimal between semicolons, and `m`.
#[verifier::external_body]
pub(crate) fn fg_rgb(r: u8, g: u8, b: u8) -> (s: String)
    ensures
        s@ == fg_sequence(r, g, b),
{
    format!("{}", termion::color::Fg(termion::color::Rgb(r, g, b)))
}

/// `termion::color::Bg` of `termion::color::Rgb(r, g, b)` as text: ESC
/// `[48;2;`, the three components in decimal between semicolons, and `m`.
#[verifier::external_body]
pub(crate) fn bg_rgb(r: u8, g: u8, b: u8) -> (s: String)
    ensures
        s@ == bg_sequence(r, g, b),
{
    format!("{}", termion::color::Bg(termion::color::Rgb(r, g, b)))
}

/// `termion::color::Fg` of `termion::color::Reset` as text: ESC `[39m`.
#[verifier::external_body]
pub(crate) fn fg_reset() -> (s: String)
    ensures
        s@ == fg_reset_sequence(),
{
    format!("{}", termion::color::Fg(termion::color::Reset))
}

/// `termion::color::Bg` of `termion::color::Reset` as text: ESC `[49m`.
#[verifier::external_body]
pub(crate) fn bg_reset() -> (s: String)
    ensures
        s@ == bg_reset_sequence(),
{
    format!("{}", termion::color::Bg(termion::color::Reset))
}

/// The lines that a viewport of `viewport` rows shows at `offset`: up to one
/// screenful from there, none where the offset lies past the end.
pub open spec fn visible(lines: Seq<Seq<char>>, offset: nat, viewport: nat) -> Seq<Seq<char>> {
    if offset > lines.len() {
        Seq::empty()
    } else if offset + viewport > lines.len() {
        lines.subrange(offset as int, lines.len() as int)
    } else {
        lines.subrange(offset as int, (offset + viewport) as int)
    }
}

/// The rows written one after the other, each followed by a carriage return.
pub open spec fn body(rows: Seq<Seq<char>>) -> Seq<char>
    decreases rows.len(),
{
    if rows.len() == 0 {
        Seq::empty()
    } else {
        body(rows.drop_last()) + rows.last() + seq!['\r']
    }
}

/// The status indicator: the offset, a slash, the number of lines.
pub open spec fn status_text(offset: nat, total: nat) -> Seq<char> {
    decimal(offset) + seq!['/'] + decimal(total)
}

/// The row of the status indicator: the last one, the first on a terminal
/// without rows.
pub open spec fn status_row(size: (u16, u16)) -> u16 {
    if size.1 >= 1 {
        size.1
    } else {
        1
    }
}

/// The column at which a status of `len` characters starts so that it ends at
/// the right edge; the first column where it is wider than the terminal.
pub open spec fn status_column(size: (u16, u16), len: nat) -> u16 {
    if size.0 + 1 > len {
        (size.0 + 1 - len) as u16
    } else {
        1
    }
}

/// The status indicator as it is drawn: black on yellow, right-aligned on the
/// last row, with the cursor left at the start of that row.
pub open spec fn status_bar(offset: nat, total: nat, size: (u16, u16)) -> Seq<char> {
    goto_sequence(status_column(size, status_text(offset, total).len()), status_row(size))
        + fg_sequence(0, 0, 0) + bg_sequence(255, 255, 0) + status_text(offset, total)
        + fg_reset_sequence() + bg_reset_sequence() + goto_sequence(1, status_row(size))
}

/// One frame: the screen cleared from the top-left corner, the visible lines,
/// and the status indicator.
pub open spec fn frame(lines: Seq<Seq<char>>, offset: nat, size: (u16, u16)) -> Seq<char> {
    goto_sequence(1, 1) + clear_sequence() + body(visible(lines, offset, viewport_rows(size)))
        + status_bar(offset, lines.len(), size)
}

/// The search prompt as it is drawn after the status indicator: its prefix
/// character and the text typed so far.
pub open spec fn prompt_text(prefix: char, input: Seq<char>) -> Seq<char> {
    seq![prefix] + input
}

/// Appends the status indicator for `offset` and `total` to `buf`.
pub fn push_status_bar(buf: &mut String, offset: usize, total: usize, size: (u16, u16))
    ensures
        final(buf)@ == old(buf)@ + status_bar(offset as nat, total as nat, size),
{
    let mut text = String::new();
    push_decimal(&mut text, offset);
    text.push('/');
    push_decimal(&mut text, total);
    let len: usize = text.as_str().unicode_len();
    let row: u16 = if size.1 >= 1 { size.1 } else { 1 };
    let column: u16 = if len <= size.0 as usize { size.0 - (len as u16) + 1 } else { 1 };
    buf.append(cursor_goto(column, row).as_str());
    buf.append(fg_rgb(0, 0, 0).as_str());
    buf.append(bg_rgb(255, 255, 0).as_str());
    buf.append(text.as_str());
    buf.append(fg_reset().as_str());
    buf.append(bg_reset().as_str());
    buf.append(cursor_goto(1, row).as_str());
}

/// The frame for `lines` seen at `offset` on a terminal of the given size.
pub fn render(lines: &Vec<String>, offset: usize, size: (u16, u16)) -> (buf: String)
    ensures
        buf@ == frame(lines.deep_view(), offset as nat, size),
{
    let viewport: usize = viewport_height(size);
    let total: usize = lines.len();
    let mut buf = String::new();
    buf.append(cursor_goto(1, 1).as_str());
    buf.append(clear_all().as_str());
    let ghost head = buf@;
    let ghost rows = lines.deep_view();
    if offset <= total {
        let end: usize = if viewport > total - offset { total } else { offset + viewport };
        let mut i: usize = offset;
        while i < end
            invariant
                offset <= i <= end <= total,
                total == lines.len(),
                rows == lines.deep_view(),
                buf@ == head + body(rows.subrange(offset as int, i as int)),
            decreases end - i,
        {
            assert(rows.subrange(offset as int, i + 1).drop_last() =~= rows.subrange(
                offset as int,
                i as int,
            ));
            assert(rows.subrange(offset as int, i + 1).last() == lines[i as int]@);
            buf.append(lines[i].as_str());
            buf.push('\r');
            i += 1;
        }
        assert(rows.subrange(offset as int, end as int) =~= visible(
            rows,
            offset as nat,
            viewport as nat,
        ));
    } else {
        assert(body(Seq::<Seq<char>>::empty()) =~= Seq::<char>::empty());
    }
    push_status_bar(&mut buf, offset, total, size);
    buf
}

} // verus!
