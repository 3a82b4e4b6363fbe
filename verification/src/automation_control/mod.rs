//! Registered guest revisions and their activations.

pub mod error;
pub mod model_laws;
pub mod runtime;
pub mod store;
