//! Dimensions of the two-state, one-input, one-output model.

use vstd::prelude::*;

verus! {

/// The two-dimensional dynamic system model with a one-dimensional input and
/// a one-dimensional output (the first state variable).
pub struct State2;

impl State2 {
    /// The rank of the system: the number of state variables.
    pub fn system_rank(&self) -> (n: usize)
        ensures
            n == 2,
    {
        2
    }

    /// The number of inputs of the system.
    pub fn num_inputs(&self) -> (n: usize)
        ensures
            n == 1,
    {
        1
    }

    /// The number of outputs of the system.
    pub fn num_outputs(&self) -> (n: usize)
        ensures
            n == 1,
    {
        1
    }
}

} // verus!
