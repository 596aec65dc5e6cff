//! The first stages of the builder of linearization problems.

use vstd::prelude::*;

verus! {

/// First step in building a linearization problem: an empty builder.
pub struct LinearizationProblemBuilder;

/// Second step in building a linearization problem: the system to linearize
/// is known.
pub struct LinearizationProblemBuilderWithSystem<Sys> {
    system: Sys,
}

impl LinearizationProblemBuilder {
    /// Returns a new empty builder for creating a linearization problem.
    pub fn new() -> (b: Self)
        ensures
            b == LinearizationProblemBuilder,
    {
        LinearizationProblemBuilder
    }

    /// Specifies the system to use for the linearization problem.
    pub fn for_system<Sys>(self, system: Sys) -> (b: LinearizationProblemBuilderWithSystem<Sys>)
        ensures
            b.system() == system,
    {
        LinearizationProblemBuilderWithSystem { system }
    }
}

impl<Sys> LinearizationProblemBuilderWithSystem<Sys> {
    /// The system that the builder holds.
    pub closed spec fn system(self) -> Sys {
        self.system
    }

    /// Hands the system over to the next stage of the builder.
    pub fn into_system(self) -> (s: Sys)
        ensures
            s == self.system(),
    {
        self.system
    }
}

} // verus!
