//! Verified core of a small flight-dynamics toolkit: the integer and
//! structural logic behind trimming, linearizing, simulating and analysing
//! aircraft models.

pub mod error;
mod text;
pub mod math;
pub mod model;
pub mod sim;
pub mod linearize;
pub mod trim;
pub mod plots;
