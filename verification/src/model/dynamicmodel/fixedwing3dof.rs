//! Layout and set-up checks of the simple longitudinal three-degree-of-freedom
//! fixed-wing model.

use crate::error::TrimError;
use vstd::prelude::*;

verus! {

/// The state variables of the 3-DoF fixed-wing model, in state-vector order.
#[derive(Debug, Clone, Copy, PartialEq, Eq, Structural)]
pub enum FixedWing3DoFStates {
    Vt,
    Alpha,
    Theta,
    Q,
    Altitude,
}

/// The number of state variables of the 3-DoF model.
pub open spec fn three_dof_rank() -> nat {
    5
}

impl FixedWing3DoFStates {
    /// Position of the state variable in the state vector.
    pub open spec fn position(self) -> nat {
        match self {
            FixedWing3DoFStates::Vt => 0,
            FixedWing3DoFStates::Alpha => 1,
            FixedWing3DoFStates::Theta => 2,
            FixedWing3DoFStates::Q => 3,
            FixedWing3DoFStates::Altitude => 4,
        }
    }

    /// Returns the position of the state variable in the state vector.
    pub fn index(self) -> (i: usize)
        ensures
            i == self.position(),
            self == FixedWing3DoFStates::Vt ==> i == 0,
            self == FixedWing3DoFStates::Alpha ==> i == 1,
            self == FixedWing3DoFStates::Theta ==> i == 2,
            self == FixedWing3DoFStates::Q ==> i == 3,
            self == FixedWing3DoFStates::Altitude ==> i == 4,
    {
        match self {
            FixedWing3DoFStates::Vt => 0,
            FixedWing3DoFStates::Alpha => 1,
            FixedWing3DoFStates::Theta => 2,
            FixedWing3DoFStates::Q => 3,
            FixedWing3DoFStates::Altitude => 4,
        }
    }

    /// Returns the state variable held at position `i` of the state vector,
    /// or `None` past its end.
    pub fn from_index(i: usize) -> (s: Option<FixedWing3DoFStates>)
        ensures
            i == 0 ==> s == Some(FixedWing3DoFStates::Vt),
            i == 1 ==> s == Some(FixedWing3DoFStates::Alpha),
            i == 2 ==> s == Some(FixedWing3DoFStates::Theta),
            i == 3 ==> s == Some(FixedWing3DoFStates::Q),
            i == 4 ==> s == Some(FixedWing3DoFStates::Altitude),
            s is Some <==> i < three_dof_rank(),
            s matches Some(v) ==> v.position() == i,
    {
        match i {
            0 => Some(FixedWing3DoFStates::Vt),
            1 => Some(FixedWing3DoFStates::Alpha),
            2 => Some(FixedWing3DoFStates::Theta),
            3 => Some(FixedWing3DoFStates::Q),
            4 => Some(FixedWing3DoFStates::Altitude),
            _ => None,
        }
    }
}

/// The state vector holds the state variables in the declared order
/// Vt, Alpha, Theta, Q, Altitude: each variable's position is its place in that order.
pub proof fn lemma_three_dof_positions()
    ensures
        FixedWing3DoFStates::Vt.position() == 0,
        FixedWing3DoFStates::Alpha.position() == 1,
        FixedWing3DoFStates::Theta.position() == 2,
        FixedWing3DoFStates::Q.position() == 3,
        FixedWing3DoFStates::Altitude.position() == 4,
{
}

/// Every state variable has its own position, inside the state vector of the
/// model's rank.
pub proof fn lemma_three_dof_state_layout(a: FixedWing3DoFStates, b: FixedWing3DoFStates)
    ensures
        a.position() < three_dof_rank(),
        a.position() == b.position() ==> a == b,
{
}

/// The simple longitudinal 3-DoF fixed-wing model: translation and pitching
/// motion in the vertical plane.
pub struct FixedWing3DoF;

/// Message of the error for a wrong number of setpoints.
pub open spec fn three_dof_setpoints_message() -> Seq<char> {
    "setpoints must have length 3"@
}

/// Message of the error for a wrong number of trim parameters.
pub open spec fn three_dof_params_message() -> Seq<char> {
    "params must have length 3"@
}

impl FixedWing3DoF {
    /// The rank of the system: the number of state variables.
    pub fn system_rank(&self) -> (n: usize)
        ensures
            n == three_dof_rank(),
    {
        5
    }

    /// The number of inputs of the system: throttle, elevator, cg position and
    /// landing-gear position.
    pub fn num_inputs(&self) -> (n: usize)
        ensures
            n == 4,
    {
        4
    }

    /// Checks the sizes of the vectors handed to the trim set-up: exactly
    /// three setpoints (vt, altitude, gamma) and exactly three parameters
    /// (throttle, elevator, alpha). The setpoints are checked first.
    pub fn check_trim_dimensions(&self, setpoints_len: usize, params_len: usize) -> (r: Result<
        (),
        TrimError,
    >)
        ensures
            r is Ok <==> setpoints_len == 3 && params_len == 3,
            r matches Err(TrimError::SetpointsError(m)) ==> setpoints_len != 3 && m@
                == three_dof_setpoints_message(),
            r matches Err(TrimError::ParamsError(m)) ==> setpoints_len == 3 && params_len != 3
                && m@ == three_dof_params_message(),
            !(r matches Err(TrimError::ConvergenceError(_))),
    {
        if setpoints_len != 3 {
            return Err(TrimError::SetpointsError(String::from_str("setpoints must have length 3")));
        }
        if params_len != 3 {
            return Err(TrimError::ParamsError(String::from_str("params must have length 3")));
        }
        Ok(())
    }
}

} // verus!
