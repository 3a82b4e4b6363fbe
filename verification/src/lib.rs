//! Building blocks of an agent runtime and its automation control plane.

pub mod agent;
pub mod automation_control;
pub mod automations;
pub mod bridges;
pub mod digest;
pub mod guest_sdk;
pub mod inmemory_bus;
pub mod json;
pub mod json_text;
pub mod model;
pub mod model_laws;
pub mod ordered_map;
pub mod paths;
pub mod protocol;
pub mod runtime_support;
pub mod scenarios;
pub mod telegram;
pub mod text;
pub mod wasm;
