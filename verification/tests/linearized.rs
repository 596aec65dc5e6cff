use selene::error::LinearizationError;
use selene::linearize::LinearizationProblemBuilder;
use selene::model::dynamicmodel::linearizeddynamicmodel::{
    check_jacobian_dimensions, check_state_space_shapes, ShapeMismatch,
};

#[test]
fn consistent_shapes_are_accepted() {
    // A 2x2, B 2x1, C 1x2, D 1x1
    assert_eq!(check_state_space_shapes((2, 2), (2, 1), (1, 2), (1, 1)), Ok(()));
    // no inputs and no outputs
    assert_eq!(check_state_space_shapes((13, 13), (13, 0), (0, 13), (0, 0)), Ok(()));
}

fn rejected_as_dimension_mismatch(a: (usize, usize), b: (usize, usize), c: (usize, usize), d: (usize, usize)) -> bool {
    matches!(
        check_state_space_shapes(a, b, c, d).map_err(|m| m.into_error()),
        Err(LinearizationError::DimensionMismatch(_))
    )
}

#[test]
fn non_square_state_matrix_is_rejected() {
    assert!(rejected_as_dimension_mismatch((2, 3), (2, 1), (1, 2), (1, 1)));
    assert_eq!(
        check_state_space_shapes((2, 3), (2, 1), (1, 2), (1, 1)),
        Err(ShapeMismatch::StateMatrixNotSquare { rows: 2, cols: 3 })
    );
}

#[test]
fn input_matrix_with_wrong_row_count_is_rejected() {
    assert!(rejected_as_dimension_mismatch((2, 2), (3, 1), (1, 2), (1, 1)));
    assert_eq!(
        check_state_space_shapes((2, 2), (3, 1), (1, 2), (1, 1)),
        Err(ShapeMismatch::InputMatrixRows { rows: 3, expected: 2 })
    );
}

#[test]
fn output_matrix_with_wrong_column_count_is_rejected() {
    assert!(rejected_as_dimension_mismatch((2, 2), (2, 1), (1, 3), (1, 1)));
    assert_eq!(
        check_state_space_shapes((2, 2), (2, 1), (1, 3), (1, 1)),
        Err(ShapeMismatch::OutputMatrixColumns { cols: 3, expected: 2 })
    );
}

#[test]
fn feedthrough_matrix_with_wrong_shape_is_rejected() {
    assert!(rejected_as_dimension_mismatch((2, 2), (2, 1), (1, 2), (1, 2)));
    assert_eq!(
        check_state_space_shapes((2, 2), (2, 1), (1, 2), (1, 2)),
        Err(ShapeMismatch::FeedthroughMatrixShape {
            rows: 1,
            cols: 2,
            expected_rows: 1,
            expected_cols: 1
        })
    );
}

#[test]
fn first_broken_rule_is_reported() {
    assert_eq!(
        check_state_space_shapes((2, 3), (5, 1), (1, 7), (4, 4)),
        Err(ShapeMismatch::StateMatrixNotSquare { rows: 2, cols: 3 })
    );
    assert_eq!(
        check_state_space_shapes((2, 2), (2, 1), (1, 7), (4, 4)),
        Err(ShapeMismatch::OutputMatrixColumns { cols: 7, expected: 2 })
    );
}

#[test]
fn jacobian_dimensions_follow_the_model() {
    assert_eq!(check_jacobian_dimensions(13, 5, 0, 13, 5, 0), Ok(()));
    assert_eq!(
        check_jacobian_dimensions(12, 5, 0, 13, 5, 0),
        Err(ShapeMismatch::JacobianRank { rows: 12, expected: 13 })
    );
    assert_eq!(
        check_jacobian_dimensions(13, 4, 0, 13, 5, 0),
        Err(ShapeMismatch::JacobianInputs { cols: 4, expected: 5 })
    );
    assert_eq!(
        check_jacobian_dimensions(13, 5, 2, 13, 5, 1),
        Err(ShapeMismatch::JacobianOutputs { rows: 2, expected: 1 })
    );
}

#[test]
fn linearization_builder_keeps_the_system() {
    let builder = LinearizationProblemBuilder::new().for_system(vec![1u8, 2, 3]);
    assert_eq!(builder.into_system(), vec![1u8, 2, 3]);
}

#[test]
fn mismatch_messages_name_the_broken_rule() {
    assert_eq!(
        ShapeMismatch::StateMatrixNotSquare { rows: 2, cols: 3 }.message(),
        "A must be square"
    );
    assert_eq!(
        ShapeMismatch::InputMatrixRows { rows: 3, expected: 2 }.message(),
        "B rows 3 ≠ A rows 2"
    );
    assert_eq!(
        ShapeMismatch::OutputMatrixColumns { cols: 10, expected: 105 }.message(),
        "C cols 10 ≠ A rows 105"
    );
    assert_eq!(
        ShapeMismatch::FeedthroughMatrixShape {
            rows: 1,
            cols: 2,
            expected_rows: 1,
            expected_cols: 0
        }
        .message(),
        "D shape 1×2 ≠ C rows 1 × B cols 0"
    );
    assert_eq!(
        ShapeMismatch::JacobianRank { rows: 12, expected: 13 }.message(),
        "A rows 12 ≠ model.system_rank() 13"
    );
    assert_eq!(
        ShapeMismatch::JacobianInputs { cols: 4, expected: 5 }.message(),
        "B cols 4 ≠ model.num_inputs() 5"
    );
    assert_eq!(
        ShapeMismatch::JacobianOutputs { rows: 2, expected: 1 }.message(),
        "C rows 2 ≠ model.num_outputs() 1"
    );
}

#[test]
fn mismatch_becomes_a_dimension_error() {
    match (ShapeMismatch::InputMatrixRows { rows: 3, expected: 2 }).into_error() {
        LinearizationError::DimensionMismatch(m) => assert_eq!(m, "B rows 3 ≠ A rows 2"),
        other => panic!("unexpected {other:?}"),
    }
}
