//! Error types reported by trimming and linearization.

use vstd::prelude::*;

verus! {

/// Errors that prevent a trim problem from being set up or solved.
#[derive(Debug)]
pub enum TrimError {
    SetpointsError(String),
    ParamsError(String),
    ConvergenceError(String),
}

impl TrimError {
    /// The text that describes this error to a user.
    pub open spec fn text(&self) -> Seq<char> {
        match self {
            TrimError::SetpointsError(msg) => "invalid setpoints: "@ + msg@,
            TrimError::ParamsError(msg) => "invalid params: "@ + msg@,
            TrimError::ConvergenceError(msg) => "convergence error: "@ + msg@,
        }
    }

    /// Renders the error as text: a prefix naming the kind of error,
    /// followed by its message.
    pub fn to_string(&self) -> (s: String)
        ensures
            s@ == self.text(),
    {
        match self {
            TrimError::SetpointsError(msg) => String::from_str("invalid setpoints: ").concat(
                msg.as_str(),
            ),
            TrimError::ParamsError(msg) => String::from_str("invalid params: ").concat(
                msg.as_str(),
            ),
            TrimError::ConvergenceError(msg) => String::from_str("convergence error: ").concat(
                msg.as_str(),
            ),
        }
    }
}

/// Errors that prevent a dynamic model from being linearized.
#[derive(Debug)]
pub enum LinearizationError {
    ConvergenceError(String),
    DimensionMismatch(String),
}

impl LinearizationError {
    /// The text that describes this error to a user.
    pub open spec fn text(&self) -> Seq<char> {
        match self {
            LinearizationError::ConvergenceError(msg) => "convergence error: "@ + msg@,
            LinearizationError::DimensionMismatch(msg) => "dimension mismatch: "@ + msg@,
        }
    }

    /// Renders the error as text: a prefix naming the kind of error,
    /// followed by its message.
    pub fn to_string(&self) -> (s: String)
        ensures
            s@ == self.text(),
    {
        match self {
            LinearizationError::ConvergenceError(msg) => String::from_str(
                "convergence error: ",
            ).concat(msg.as_str()),
            LinearizationError::DimensionMismatch(msg) => String::from_str(
                "dimension mismatch: ",
            ).concat(msg.as_str()),
        }
    }
}

} // verus!
