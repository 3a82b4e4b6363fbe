//! The agent core: what a schema names, what happens, and who takes part.

pub mod execution;
pub mod flat_runtime;
pub mod interaction;
pub mod laws;
pub mod presentation;
pub mod runtime;
pub mod schema;
pub mod substrate;
