//! Durable control plane for versioned Wasm automations.
//!
//! The core boundary is explicit:
//! - guest automations are immutable Wasm artifacts
//! - a revision must be registered before it can be activated
//! - the control plane owns persistence, wakeups, and effect mediation
//! - guests communicate only through the protocol types

pub mod bundle_host;
pub mod bundle_laws;
pub mod clock;
pub mod control_plane;
pub mod domain;
pub mod drive;
pub mod due;
pub mod error;
pub mod guest;
pub mod laws;
pub mod model_laws;
pub mod operation_laws;
pub mod pocket_universe;
pub mod providers;
pub mod result_laws;
pub mod settlement;
pub mod store;
pub mod supervisor;
pub mod transitions;
