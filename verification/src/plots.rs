//! Styling decisions of the plots.

use vstd::prelude::*;

verus! {

/// The number of line colours the plots cycle through (black, red, blue,
/// green).
pub const LINE_COLOR_COUNT: usize = 4;

/// The colour used for the line after the one drawn with colour `current`:
/// the colours are used in turn, starting over after the last one.
pub fn next_line_color(current: usize) -> (next: usize)
    requires
        current < LINE_COLOR_COUNT,
    ensures
        next == (current + 1) % (LINE_COLOR_COUNT as int),
        next < LINE_COLOR_COUNT,
{
    if current == LINE_COLOR_COUNT - 1 {
        0
    } else {
        current + 1
    }
}

} // verus!
