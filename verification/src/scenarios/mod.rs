//! Scenarios for workers and automations: what they expect, and how they report that
//! an expectation was not met.

pub mod automations;
pub mod bus;
pub mod laws;
pub mod report;
