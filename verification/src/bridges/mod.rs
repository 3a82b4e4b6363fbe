//! Bridges to agents that run as child processes and speak JSON lines.

pub mod claude;
pub mod codex;
pub mod laws;
pub mod process;
