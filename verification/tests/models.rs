use selene::error::{LinearizationError, TrimError};
use selene::model::dynamicmodel::fixedwing3dof::{FixedWing3DoF, FixedWing3DoFStates};
use selene::model::dynamicmodel::fixedwing6dof::{
    lateral_indices, longitudinal_indices, FixedWing6DoF, FixedWing6DoFStates,
};
use selene::model::dynamicmodel::state2::State2;
use selene::model::engine::thrust_table_segment;

#[test]
fn six_dof_state_indices_follow_the_state_vector() {
    assert_eq!(FixedWing6DoFStates::Vt.index(), 0);
    assert_eq!(FixedWing6DoFStates::Theta.index(), 4);
    assert_eq!(FixedWing6DoFStates::PosN.index(), 9);
    assert_eq!(FixedWing6DoFStates::PosE.index(), 10);
    assert_eq!(FixedWing6DoFStates::Power.index(), 12);
    for i in 0..13 {
        assert_eq!(FixedWing6DoFStates::from_index(i).map(|s| s.index()), Some(i));
    }
    assert_eq!(FixedWing6DoFStates::from_index(13), None);
    assert_eq!(FixedWing6DoF.system_rank(), 13);
}

#[test]
fn three_dof_state_indices_follow_the_state_vector() {
    assert_eq!(FixedWing3DoFStates::Vt.index(), 0);
    assert_eq!(FixedWing3DoFStates::Altitude.index(), 4);
    for i in 0..5 {
        assert_eq!(FixedWing3DoFStates::from_index(i).map(|s| s.index()), Some(i));
    }
    assert_eq!(FixedWing3DoFStates::from_index(5), None);
    assert_eq!(FixedWing3DoF.system_rank(), 5);
}

#[test]
fn submatrix_indices_of_the_two_axes() {
    assert_eq!(longitudinal_indices(), vec![0, 1, 4, 7]);
    assert_eq!(lateral_indices(), vec![2, 3, 6, 8]);
}

#[test]
fn state2_dimensions() {
    assert_eq!(State2.system_rank(), 2);
    assert_eq!(State2.num_inputs(), 1);
    assert_eq!(State2.num_outputs(), 1);
}

#[test]
fn three_dof_trim_dimensions() {
    assert!(FixedWing3DoF.check_trim_dimensions(3, 3).is_ok());
    match FixedWing3DoF.check_trim_dimensions(8, 3) {
        Err(TrimError::SetpointsError(m)) => assert_eq!(m, "setpoints must have length 3"),
        other => panic!("unexpected {other:?}"),
    }
    match FixedWing3DoF.check_trim_dimensions(2, 6) {
        Err(TrimError::SetpointsError(_)) => {}
        other => panic!("unexpected {other:?}"),
    }
    match FixedWing3DoF.check_trim_dimensions(3, 6) {
        Err(TrimError::ParamsError(m)) => assert_eq!(m, "params must have length 3"),
        other => panic!("unexpected {other:?}"),
    }
}

#[test]
fn six_dof_trim_dimensions() {
    assert!(FixedWing6DoF.check_trim_dimensions(8, 6).is_ok());
    assert!(FixedWing6DoF.check_trim_dimensions(9, 6).is_ok());
    match FixedWing6DoF.check_trim_dimensions(7, 6) {
        Err(TrimError::SetpointsError(m)) => {
            assert_eq!(m, "setpoints must have length 8 or more")
        }
        other => panic!("unexpected {other:?}"),
    }
    match FixedWing6DoF.check_trim_dimensions(9, 5) {
        Err(TrimError::ParamsError(m)) => assert_eq!(m, "params must have length 6"),
        other => panic!("unexpected {other:?}"),
    }
}

#[test]
fn cg_setpoint_is_the_ninth_when_present() {
    assert_eq!(FixedWing6DoF.cg_setpoint_index(8), None);
    assert_eq!(FixedWing6DoF.cg_setpoint_index(9), Some(8));
    assert_eq!(FixedWing6DoF.cg_setpoint_index(12), Some(8));
}

#[test]
fn errors_render_with_their_kind() {
    assert_eq!(
        TrimError::SetpointsError("x".to_string()).to_string(),
        "invalid setpoints: x"
    );
    assert_eq!(TrimError::ParamsError("y".to_string()).to_string(), "invalid params: y");
    assert_eq!(
        TrimError::ConvergenceError("z".to_string()).to_string(),
        "convergence error: z"
    );
    assert_eq!(
        LinearizationError::ConvergenceError("Failed to converge".to_string()).to_string(),
        "convergence error: Failed to converge"
    );
    assert_eq!(
        LinearizationError::DimensionMismatch("A must be square".to_string()).to_string(),
        "dimension mismatch: A must be square"
    );
}

#[test]
fn thrust_table_segments_stay_inside_the_table() {
    assert_eq!(thrust_table_segment(0, false), 0);
    assert_eq!(thrust_table_segment(4, false), 4);
    assert_eq!(thrust_table_segment(7, true), 4);
    assert_eq!(thrust_table_segment(0, true), 4);
}
