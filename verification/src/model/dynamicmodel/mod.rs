//! Dynamic models: their state layouts, dimensions and set-up checks.

pub mod fixedwing3dof;
pub mod fixedwing6dof;
pub mod linearizeddynamicmodel;
pub mod state2;
