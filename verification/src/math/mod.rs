//! Integer and structural helpers behind the numerical routines.

pub mod interpolation;
pub mod modal_analysis;
