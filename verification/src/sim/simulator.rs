//! The first stages of the simulator's builder.

use vstd::prelude::*;

verus! {

/// First step in building a simulator: an empty builder.
pub struct SimulatorBuilder;

/// Second step in building a simulator: the system to simulate is known.
pub struct SimulatorBuilderWithSystem<Sys> {
    system: Sys,
}

impl SimulatorBuilder {
    /// Returns a new empty builder for creating a simulator.
    pub fn new() -> (b: Self)
        ensures
            b == SimulatorBuilder,
    {
        SimulatorBuilder
    }

    /// Specifies the system to use for the simulator.
    pub fn for_system<Sys>(self, system: Sys) -> (b: SimulatorBuilderWithSystem<Sys>)
        ensures
            b.system() == system,
    {
        SimulatorBuilderWithSystem { system }
    }
}

impl<Sys> SimulatorBuilderWithSystem<Sys> {
    /// The system that the builder holds.
    pub closed spec fn system(self) -> Sys {
        self.system
    }

    /// Hands the system over to the next stage of the builder.
    pub fn into_system(self) -> (s: Sys)
        ensures
            s == self.system(),
    {
        self.system
    }
}

} // verus!
