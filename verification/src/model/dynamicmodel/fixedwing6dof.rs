//! Layout and set-up checks of the full six-degree-of-freedom fixed-wing
//! model.

use crate::error::TrimError;
use vstd::prelude::*;

verus! {

/// The state variables of the 6-DoF fixed-wing model, in state-vector order.
#[derive(Debug, Clone, Copy, PartialEq, Eq, Structural)]
pub enum FixedWing6DoFStates {
    Vt,
    Alpha,
    Beta,
    Phi,
    Theta,
    Psi,
    P,
    Q,
    R,
    PosN,
    PosE,
    Altitude,
    Power,
}

/// The number of state variables of the 6-DoF model.
pub open spec fn six_dof_rank() -> nat {
    13
}

impl FixedWing6DoFStates {
    /// Position of the state variable in the state vector.
    pub open spec fn position(self) -> nat {
        match self {
            FixedWing6DoFStates::Vt => 0,
            FixedWing6DoFStates::Alpha => 1,
            FixedWing6DoFStates::Beta => 2,
            FixedWing6DoFStates::Phi => 3,
            FixedWing6DoFStates::Theta => 4,
            FixedWing6DoFStates::Psi => 5,
            FixedWing6DoFStates::P => 6,
            FixedWing6DoFStates::Q => 7,
            FixedWing6DoFStates::R => 8,
            FixedWing6DoFStates::PosN => 9,
            FixedWing6DoFStates::PosE => 10,
            FixedWing6DoFStates::Altitude => 11,
            FixedWing6DoFStates::Power => 12,
        }
    }

    /// Returns the position of the state variable in the state vector.
    pub fn index(self) -> (i: usize)
        ensures
            i == self.position(),
            self == FixedWing6DoFStates::Vt ==> i == 0,
            self == FixedWing6DoFStates::Alpha ==> i == 1,
            self == FixedWing6DoFStates::Beta ==> i == 2,
            self == FixedWing6DoFStates::Phi ==> i == 3,
            self == FixedWing6DoFStates::Theta ==> i == 4,
            self == FixedWing6DoFStates::Psi ==> i == 5,
            self == FixedWing6DoFStates::P ==> i == 6,
            self == FixedWing6DoFStates::Q ==> i == 7,
            self == FixedWing6DoFStates::R ==> i == 8,
            self == FixedWing6DoFStates::PosN ==> i == 9,
            self == FixedWing6DoFStates::PosE ==> i == 10,
            self == FixedWing6DoFStates::Altitude ==> i == 11,
            self == FixedWing6DoFStates::Power ==> i == 12,
    {
        match self {
            FixedWing6DoFStates::Vt => 0,
            FixedWing6DoFStates::Alpha => 1,
            FixedWing6DoFStates::Beta => 2,
            FixedWing6DoFStates::Phi => 3,
            FixedWing6DoFStates::Theta => 4,
            FixedWing6DoFStates::Psi => 5,
            FixedWing6DoFStates::P => 6,
            FixedWing6DoFStates::Q => 7,
            FixedWing6DoFStates::R => 8,
            FixedWing6DoFStates::PosN => 9,
            FixedWing6DoFStates::PosE => 10,
            FixedWing6DoFStates::Altitude => 11,
            FixedWing6DoFStates::Power => 12,
        }
    }

    /// Returns the state variable held at position `i` of the state vector,
    /// or `None` past its end.
    pub fn from_index(i: usize) -> (s: Option<FixedWing6DoFStates>)
        ensures
            i == 0 ==> s == Some(FixedWing6DoFStates::Vt),
            i == 1 ==> s == Some(FixedWing6DoFStates::Alpha),
            i == 2 ==> s == Some(FixedWing6DoFStates::Beta),
            i == 3 ==> s == Some(FixedWing6DoFStates::Phi),
            i == 4 ==> s == Some(FixedWing6DoFStates::Theta),
            i == 5 ==> s == Some(FixedWing6DoFStates::Psi),
            i == 6 ==> s == Some(FixedWing6DoFStates::P),
            i == 7 ==> s == Some(FixedWing6DoFStates::Q),
            i == 8 ==> s == Some(FixedWing6DoFStates::R),
            i == 9 ==> s == Some(FixedWing6DoFStates::PosN),
            i == 10 ==> s == Some(FixedWing6DoFStates::PosE),
            i == 11 ==> s == Some(FixedWing6DoFStates::Altitude),
            i == 12 ==> s == Some(FixedWing6DoFStates::Power),
            s is Some <==> i < six_dof_rank(),
            s matches Some(v) ==> v.position() == i,
    {
        match i {
            0 => Some(FixedWing6DoFStates::Vt),
            1 => Some(FixedWing6DoFStates::Alpha),
            2 => Some(FixedWing6DoFStates::Beta),
            3 => Some(FixedWing6DoFStates::Phi),
            4 => Some(FixedWing6DoFStates::Theta),
            5 => Some(FixedWing6DoFStates::Psi),
            6 => Some(FixedWing6DoFStates::P),
            7 => Some(FixedWing6DoFStates::Q),
            8 => Some(FixedWing6DoFStates::R),
            9 => Some(FixedWing6DoFStates::PosN),
            10 => Some(FixedWing6DoFStates::PosE),
            11 => Some(FixedWing6DoFStates::Altitude),
            12 => Some(FixedWing6DoFStates::Power),
            _ => None,
        }
    }
}

/// The state vector holds the state variables in the declared order
/// Vt, Alpha, Beta, Phi, Theta, Psi, P, Q, R, PosN, PosE, Altitude, Power: each variable's position is its place in that order.
pub proof fn lemma_six_dof_positions()
    ensures
        FixedWing6DoFStates::Vt.position() == 0,
        FixedWing6DoFStates::Alpha.position() == 1,
        FixedWing6DoFStates::Beta.position() == 2,
        FixedWing6DoFStates::Phi.position() == 3,
        FixedWing6DoFStates::Theta.position() == 4,
        FixedWing6DoFStates::Psi.position() == 5,
        FixedWing6DoFStates::P.position() == 6,
        FixedWing6DoFStates::Q.position() == 7,
        FixedWing6DoFStates::R.position() == 8,
        FixedWing6DoFStates::PosN.position() == 9,
        FixedWing6DoFStates::PosE.position() == 10,
        FixedWing6DoFStates::Altitude.position() == 11,
        FixedWing6DoFStates::Power.position() == 12,
{
}

/// Every state variable has its own position, inside the state vector of the
/// model's rank.
pub proof fn lemma_six_dof_state_layout(a: FixedWing6DoFStates, b: FixedWing6DoFStates)
    ensures
        a.position() < six_dof_rank(),
        a.position() == b.position() ==> a == b,
{
}

/// The state variables of the longitudinal motion, in the order of the
/// longitudinal submatrix: Vt, Alpha, Theta, Q.
pub open spec fn longitudinal_states() -> Seq<FixedWing6DoFStates> {
    seq![
        FixedWing6DoFStates::Vt,
        FixedWing6DoFStates::Alpha,
        FixedWing6DoFStates::Theta,
        FixedWing6DoFStates::Q,
    ]
}

/// The state variables of the lateral-directional motion, in the order of the
/// lateral submatrix: Beta, Phi, P, R.
pub open spec fn lateral_states() -> Seq<FixedWing6DoFStates> {
    seq![
        FixedWing6DoFStates::Beta,
        FixedWing6DoFStates::Phi,
        FixedWing6DoFStates::P,
        FixedWing6DoFStates::R,
    ]
}

/// The state-vector positions of a list of state variables.
pub open spec fn positions(states: Seq<FixedWing6DoFStates>) -> Seq<usize> {
    states.map_values(|s: FixedWing6DoFStates| s.position() as usize)
}

/// Rows and columns of the state matrix that form the longitudinal submatrix.
pub fn longitudinal_indices() -> (indices: Vec<usize>)
    ensures
        indices@ == positions(longitudinal_states()),
        indices@ == seq![0usize, 1, 4, 7],
{
    let v = vec![
        FixedWing6DoFStates::Vt.index(),
        FixedWing6DoFStates::Alpha.index(),
        FixedWing6DoFStates::Theta.index(),
        FixedWing6DoFStates::Q.index(),
    ];
    assert(v@ =~= positions(longitudinal_states()));
    v
}

/// Rows and columns of the state matrix that form the lateral-directional
/// submatrix.
pub fn lateral_indices() -> (indices: Vec<usize>)
    ensures
        indices@ == positions(lateral_states()),
        indices@ == seq![2usize, 3, 6, 8],
{
    let v = vec![
        FixedWing6DoFStates::Beta.index(),
        FixedWing6DoFStates::Phi.index(),
        FixedWing6DoFStates::P.index(),
        FixedWing6DoFStates::R.index(),
    ];
    assert(v@ =~= positions(lateral_states()));
    v
}

/// The longitudinal and the lateral submatrices are taken from disjoint sets
/// of distinct state variables inside the state vector.
pub proof fn lemma_axes_are_disjoint()
    ensures
        forall|i: int, j: int|
            0 <= i < 4 && 0 <= j < 4 ==> positions(longitudinal_states())[i] != positions(
                lateral_states(),
            )[j],
        forall|i: int, j: int|
            0 <= i < j < 4 ==> positions(longitudinal_states())[i] != positions(
                longitudinal_states(),
            )[j] && positions(lateral_states())[i] != positions(lateral_states())[j],
        forall|i: int|
            0 <= i < 4 ==> positions(longitudinal_states())[i] < six_dof_rank() && positions(
                lateral_states(),
            )[i] < six_dof_rank(),
{
    let lo = positions(longitudinal_states());
    let la = positions(lateral_states());
    assert(lo =~= seq![0usize, 1, 4, 7]);
    assert(la =~= seq![2usize, 3, 6, 8]);
}

/// The six-degree-of-freedom fixed-wing model: full nonlinear rigid-body
/// dynamics with engine power as an extra state.
pub struct FixedWing6DoF;

/// Message of the error for too few setpoints.
pub open spec fn six_dof_setpoints_message() -> Seq<char> {
    "setpoints must have length 8 or more"@
}

/// Message of the error for a wrong number of trim parameters.
pub open spec fn six_dof_params_message() -> Seq<char> {
    "params must have length 6"@
}

impl FixedWing6DoF {
    /// The rank of the system: the number of state variables.
    pub fn system_rank(&self) -> (n: usize)
        ensures
            n == six_dof_rank(),
    {
        13
    }

    /// The number of inputs of the system: throttle, elevator, aileron, rudder
    /// and cg position.
    pub fn num_inputs(&self) -> (n: usize)
        ensures
            n == 5,
    {
        5
    }

    /// Checks the sizes of the vectors handed to the trim set-up: at least
    /// eight setpoints (vt, altitude, gamma, roll rate, pitch rate, turn rate,
    /// phi, coordinated-turn flag, and optionally the cg position) and
    /// exactly six parameters (throttle, elevator, alpha, aileron, rudder,
    /// beta). The setpoints are checked first.
    pub fn check_trim_dimensions(&self, setpoints_len: usize, params_len: usize) -> (r: Result<
        (),
        TrimError,
    >)
        ensures
            r is Ok <==> setpoints_len >= 8 && params_len == 6,
            r matches Err(TrimError::SetpointsError(m)) ==> setpoints_len < 8 && m@
                == six_dof_setpoints_message(),
            r matches Err(TrimError::ParamsError(m)) ==> setpoints_len >= 8 && params_len != 6
                && m@ == six_dof_params_message(),
            !(r matches Err(TrimError::ConvergenceError(_))),
    {
        if setpoints_len < 8 {
            return Err(TrimError::SetpointsError(String::from_str("setpoints must have length 8 or more")));
        }
        if params_len != 6 {
            return Err(TrimError::ParamsError(String::from_str("params must have length 6")));
        }
        Ok(())
    }

    /// Position, among the setpoints, of the centre-of-gravity setpoint: the
    /// ninth setpoint when present; without it the nominal position is used.
    pub fn cg_setpoint_index(&self, setpoints_len: usize) -> (i: Option<usize>)
        ensures
            i is Some <==> setpoints_len > 8,
            i matches Some(k) ==> k == 8 && k < setpoints_len,
    {
        if setpoints_len > 8 {
            Some(8)
        } else {
            None
        }
    }
}

} // verus!
