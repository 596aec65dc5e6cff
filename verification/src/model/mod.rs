//! Aircraft and dynamic-system models.

pub mod dynamicmodel;
pub mod engine;
