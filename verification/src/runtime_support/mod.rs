//! Runtime helpers layered on top of the agent core.

pub mod ids;
pub mod laws;
pub mod workers;
