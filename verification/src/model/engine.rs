//! Table lookup of the turbofan engine model.

use vstd::prelude::*;

verus! {

/// The number of grid points along each axis of the engine's thrust tables.
pub const THRUST_TABLE_POINTS: usize = 6;

/// The segment of an engine thrust table used for a scaled altitude or Mach
/// number: the segment below the grid point `floor_index` (the integer part
/// of the scaled value, zero for negative values), or the last segment when
/// the scaled value is at or beyond the last grid point (5). Both ends
/// of the segment, `segment` and `segment + 1`, are rows of the table.
pub fn thrust_table_segment(floor_index: usize, beyond_last_segment: bool) -> (segment: usize)
    requires
        !beyond_last_segment ==> floor_index < THRUST_TABLE_POINTS - 1,
    ensures
        segment == (if beyond_last_segment {
            (THRUST_TABLE_POINTS - 2) as usize
        } else {
            floor_index
        }),
        segment + 1 < THRUST_TABLE_POINTS,
{
    if beyond_last_segment {
        THRUST_TABLE_POINTS - 2
    } else {
        floor_index
    }
}

} // verus!
