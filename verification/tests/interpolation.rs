use selene::math::interpolation::{clamp_grid_point, interpolation_rows};

/// Scales the parameter into table units, rounds and clamps it, and picks
/// the interpolation rows on the side of the remainder.
fn get_interpolation_indexes_and_remainder(
    lut_size: usize,
    shift: i64,
    value: f64,
    multiplier: f64,
) -> (usize, usize, f64) {
    let index_float = multiplier * value;
    let index = clamp_grid_point(lut_size, shift, index_float.round() as i64);
    let remainder = index_float - index as f64;
    let (row, adjacent) = interpolation_rows(lut_size, shift, index, remainder >= 0.0);
    (row, adjacent, remainder)
}

#[test]
fn positive_remainder_interpolation_indexes() {
    let (index, index_adjacent, _) = get_interpolation_indexes_and_remainder(9, 0, 7.0, 0.2);
    assert_eq!(index, 1);
    assert_eq!(index_adjacent, 2);
}

#[test]
fn clamp_and_positive_remainder_interpolation_indexes() {
    let (index, index_adjacent, _) = get_interpolation_indexes_and_remainder(9, 0, 45.0, 0.2);
    assert_eq!(index, 7);
    assert_eq!(index_adjacent, 8);
}

#[test]
fn negative_remainder_interpolation_indexes() {
    let (index, index_adjacent, _) = get_interpolation_indexes_and_remainder(9, 0, 3.0, 0.2);
    assert_eq!(index, 1);
    assert_eq!(index_adjacent, 0);
}

#[test]
fn clamp_and_negative_remainder_interpolation_indexes() {
    let (index, index_adjacent, _) = get_interpolation_indexes_and_remainder(9, 0, 1.0, 0.2);
    assert_eq!(index, 1);
    assert_eq!(index_adjacent, 0);
}

#[test]
fn negative_value_range() {
    let (index, index_adjacent, _) = get_interpolation_indexes_and_remainder(12, 2, -3.0, 0.2);
    assert_eq!(index, 1);
    assert_eq!(index_adjacent, 2);
}

#[test]
fn negative_value_range_2() {
    let (index, index_adjacent, _) = get_interpolation_indexes_and_remainder(12, 2, -6.0, 0.2);
    assert_eq!(index, 1);
    assert_eq!(index_adjacent, 0);
}

#[test]
fn clamp_grid_point_keeps_interior_points() {
    assert_eq!(clamp_grid_point(12, 2, 3), 3);
    assert_eq!(clamp_grid_point(12, 2, -1), -1);
    assert_eq!(clamp_grid_point(12, 2, 8), 8);
}

#[test]
fn clamp_grid_point_clamps_below_and_above() {
    // table of 12 entries shifted by 2: grid points -1 ..= 8
    assert_eq!(clamp_grid_point(12, 2, -5), -1);
    assert_eq!(clamp_grid_point(12, 2, 20), 8);
    assert_eq!(clamp_grid_point(12, 2, i64::MIN), -1);
    assert_eq!(clamp_grid_point(12, 2, i64::MAX), 8);
}

#[test]
fn smallest_table_has_one_interior_point() {
    assert_eq!(clamp_grid_point(3, 0, -7), 1);
    assert_eq!(clamp_grid_point(3, 0, 7), 1);
    assert_eq!(interpolation_rows(3, 0, 1, true), (1, 2));
    assert_eq!(interpolation_rows(3, 0, 1, false), (1, 0));
}

#[test]
fn rows_never_leave_the_table() {
    for lut_size in 3usize..20 {
        for shift in -3i64..4 {
            for rounded in -40i64..40 {
                let index = clamp_grid_point(lut_size, shift, rounded);
                for nonnegative in [false, true] {
                    let (row, adjacent) = interpolation_rows(lut_size, shift, index, nonnegative);
                    assert!(row >= 1 && row <= lut_size - 2);
                    assert!(adjacent < lut_size);
                    assert_eq!(row.abs_diff(adjacent), 1);
                }
            }
        }
    }
}

#[test]
fn extrapolation_beyond_the_table_uses_the_last_segment() {
    // alpha = 50 deg in a 12-point table from -10 deg with 5 deg steps
    let (row, adjacent, remainder) = get_interpolation_indexes_and_remainder(12, 2, 50.0, 0.2);
    assert_eq!((row, adjacent), (10, 11));
    assert!((remainder - 2.0).abs() < 1e-12);
}
