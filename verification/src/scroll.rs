//! Scroll arithmetic: how far a viewport may move over a buffer of lines.

use vstd::prelude::*;
use vstd::std_specs::cmp::PartialOrdSpec;
use core::cmp::Ordering;

verus! {

/// The rows of a terminal of the given size (columns, rows) that show lines:
/// all but the last one, which holds the status indicator.
pub open spec fn viewport_rows(size: (u16, u16)) -> nat {
    if size.1 >= 1 {
        (size.1 - 1) as nat
    } else {
        0
    }
}

/// The largest offset at which a viewport of `viewport` rows still shows the
/// end of a buffer of `total` lines.
pub open spec fn max_offset(total: nat, viewport: nat) -> nat {
    if total > viewport {
        (total - viewport) as nat
    } else {
        0
    }
}

/// `x` held in `[low, high]`; the lower bound wins where the two cross.
pub open spec fn bounded(x: int, low: int, high: int) -> int {
    if x < low {
        low
    } else if x > high {
        high
    } else {
        x
    }
}

/// The offset reached from `offset` by moving `delta` lines (down when
/// positive) over `total` lines seen through `viewport` rows.
pub open spec fn scrolled(offset: nat, delta: int, total: nat, viewport: nat) -> nat {
    bounded(offset + delta, 0, max_offset(total, viewport) as int) as nat
}

/// `scrolled` on machine integers.
pub open spec fn scroll_result(offset: usize, delta: i16, total: usize, viewport: usize) -> nat {
    scrolled(offset as nat, delta as int, total as nat, viewport as nat)
}

/// Every scrolled offset lies in `[0, max_offset]`, whatever the offset it
/// started from and whatever the delta; scrolling up from the top stays at the
/// top, and scrolling down from the bottom stays at the bottom.
pub proof fn scroll_stays_in_bounds(offset: nat, delta: int, total: nat, viewport: nat)
    ensures
        0 <= scrolled(offset, delta, total, viewport) <= max_offset(total, viewport),
        delta <= 0 ==> scrolled(0, delta, total, viewport) == 0,
        delta >= 0 ==> scrolled(max_offset(total, viewport), delta, total, viewport) == max_offset(
            total,
            viewport,
        ),
{
}

/// `x` held between `l` and `u`: `l` where `x` is below it, else `u` where
/// `x` is above it, else `x` itself.
pub fn clamp<T: PartialOrd>(x: T, l: T, u: T) -> (r: T)
    ensures
        T::obeys_partial_cmp_spec() ==> r == (if x.partial_cmp_spec(&l) == Some(Ordering::Less) {
            l
        } else if x.partial_cmp_spec(&u) == Some(Ordering::Greater) {
            u
        } else {
            x
        }),
{
    if x < l {
        l
    } else if x > u {
        u
    } else {
        x
    }
}

/// The number of rows that show lines on a terminal of the given size.
pub fn viewport_height(size: (u16, u16)) -> (h: usize)
    ensures
        h == viewport_rows(size),
{
    if size.1 >= 1 {
        (size.1 - 1) as usize
    } else {
        0
    }
}

/// The largest offset for `total` lines and `viewport` rows.
pub fn max_scroll(total: usize, viewport: usize) -> (m: usize)
    ensures
        m == max_offset(total as nat, viewport as nat),
{
    if total > viewport {
        total - viewport
    } else {
        0
    }
}

/// `offset` moved by `delta`, held in the range of `usize`.
pub fn shifted(offset: usize, delta: i16) -> (r: usize)
    ensures
        r == bounded(offset + delta, 0, usize::MAX as int),
{
    if delta >= 0 {
        let step: usize = delta as usize;
        if step > usize::MAX - offset {
            usize::MAX
        } else {
            offset + step
        }
    } else {
        let step: usize = (-(delta as i32)) as usize;
        if step > offset {
            0
        } else {
            offset - step
        }
    }
}

/// The offset after scrolling by `delta` lines.
pub fn scroll_target(offset: usize, delta: i16, total: usize, viewport: usize) -> (r: usize)
    ensures
        r == scroll_result(offset, delta, total, viewport),
{
    clamp(shifted(offset, delta), 0, max_scroll(total, viewport))
}

} // verus!
