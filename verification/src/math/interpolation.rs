//! Index selection for linear interpolation in evenly spaced lookup tables.
//!
//! A table lookup scales the parameter into table units, rounds it to the
//! nearest grid point, clamps that point so that both it and a neighbour lie
//! inside the table, and interpolates (or extrapolates, near the ends)
//! between the grid point and the neighbour on the side of the remainder.
//! The rounding and the remainder are computed in floating point by the
//! caller; this module decides which table rows are read.

use vstd::prelude::*;

verus! {

/// `value` clamped into `[lo, hi]`.
pub open spec fn clamped(value: int, lo: int, hi: int) -> int {
    if value < lo {
        lo
    } else if value > hi {
        hi
    } else {
        value
    }
}

/// The smallest grid point (in table units, before the shift) that may be used.
pub open spec fn lowest_grid_point(shift: int) -> int {
    1 - shift
}

/// The largest grid point (in table units, before the shift) that may be used.
pub open spec fn highest_grid_point(lut_size: int, shift: int) -> int {
    lut_size - 2 - shift
}

/// A table of `lut_size` entries whose grid is offset by `shift` can be used:
/// it has room for a grid point with a neighbour on each side, and the grid
/// bounds fit in an `i64`.
pub open spec fn table_is_usable(lut_size: usize, shift: i64) -> bool {
    &&& 3 <= lut_size
    &&& i64::MIN <= lowest_grid_point(shift as int) <= i64::MAX
    &&& i64::MIN <= highest_grid_point(lut_size as int, shift as int) <= i64::MAX
}

/// The pair of table rows read for the grid point `index`: the point itself
/// and its neighbour on the side of the remainder.
pub open spec fn table_rows(shift: int, index: int, remainder_nonnegative: bool) -> (int, int) {
    let row = index + shift;
    (row, if remainder_nonnegative { row + 1 } else { row - 1 })
}

/// Clamps a rounded, scaled parameter to the grid points that have a
/// neighbour on both sides inside the table.
pub fn clamp_grid_point(lut_size: usize, shift: i64, rounded: i64) -> (index: i64)
    requires
        table_is_usable(lut_size, shift),
    ensures
        index == clamped(
            rounded as int,
            lowest_grid_point(shift as int),
            highest_grid_point(lut_size as int, shift as int),
        ),
        1 - shift <= index <= lut_size - 2 - shift,
        rounded < 1 - shift ==> index == 1 - shift,
        rounded > lut_size - 2 - shift ==> index == lut_size - 2 - shift,
        1 - shift <= rounded <= lut_size - 2 - shift ==> index == rounded,
{
    let lo: i128 = 1i128 - shift as i128;
    let hi: i128 = lut_size as i128 - 2i128 - shift as i128;
    let r: i128 = rounded as i128;
    if r < lo {
        lo as i64
    } else if r > hi {
        hi as i64
    } else {
        rounded
    }
}

/// Returns the two table rows used to interpolate at the clamped grid point
/// `index`: the row of the grid point, and the adjacent row on the side where
/// the remainder lies (above for a non-negative remainder, below otherwise).
pub fn interpolation_rows(
    lut_size: usize,
    shift: i64,
    index: i64,
    remainder_nonnegative: bool,
) -> (rows: (usize, usize))
    requires
        table_is_usable(lut_size, shift),
        lowest_grid_point(shift as int) <= index <= highest_grid_point(
            lut_size as int,
            shift as int,
        ),
    ensures
        (rows.0 as int, rows.1 as int) == table_rows(
            shift as int,
            index as int,
            remainder_nonnegative,
        ),
        rows.0 < lut_size,
        rows.1 < lut_size,
        rows.0 == index + shift,
        remainder_nonnegative ==> rows.1 == rows.0 + 1,
        !remainder_nonnegative ==> rows.1 + 1 == rows.0,
{
    let row: i128 = index as i128 + shift as i128;
    let adjacent: i128 = if remainder_nonnegative {
        row + 1
    } else {
        row - 1
    };
    (row as usize, adjacent as usize)
}

/// Whatever the parameter and the remainder, the two rows that a lookup reads
/// lie inside the table and are neighbours; the grid point itself never sits
/// on the first or last row.
pub proof fn lemma_lookup_stays_in_table(
    lut_size: usize,
    shift: i64,
    rounded: i64,
    remainder_nonnegative: bool,
)
    requires
        table_is_usable(lut_size, shift),
    ensures
        ({
            let index = clamped(
                rounded as int,
                lowest_grid_point(shift as int),
                highest_grid_point(lut_size as int, shift as int),
            );
            let rows = table_rows(shift as int, index, remainder_nonnegative);
            &&& 1 <= rows.0 <= lut_size - 2
            &&& 0 <= rows.1 < lut_size
            &&& (rows.1 == rows.0 + 1 || rows.1 == rows.0 - 1)
        }),
{
}

/// The second row read by a lookup lies on the side of the remainder: the
/// row above the grid point for a non-negative remainder and the row below it
/// for a negative one, so the two rows bracket the scaled parameter. The grid
/// point itself is the clamped, rounded parameter moved by the shift.
pub proof fn lemma_rows_bracket_the_parameter(
    lut_size: usize,
    shift: i64,
    rounded: i64,
    remainder_nonnegative: bool,
)
    requires
        table_is_usable(lut_size, shift),
    ensures
        ({
            let lo = 1 - shift;
            let hi = lut_size - 2 - shift;
            let index = clamped(
                rounded as int,
                lowest_grid_point(shift as int),
                highest_grid_point(lut_size as int, shift as int),
            );
            let rows = table_rows(shift as int, index, remainder_nonnegative);
            &&& lo <= index <= hi
            &&& (lo <= rounded <= hi ==> index == rounded)
            &&& rows.0 == index + shift
            &&& (remainder_nonnegative ==> rows.1 == rows.0 + 1)
            &&& (!remainder_nonnegative ==> rows.1 == rows.0 - 1)
        }),
{
}

} // verus!
