//! The concrete entity types the engine is exercised with: a top-level
//! record and a nested record owned by it.

pub mod dummy;
pub mod sub_dummy;
