//! Simulation of dynamic models: the recorded time history and the
//! simulator's builder.

pub mod output;
pub mod simulator;
