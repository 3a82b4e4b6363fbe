//! Telegram surface adapters for agent runtimes.

pub mod client;
pub mod laws;
pub mod surface;
pub mod test_client;
