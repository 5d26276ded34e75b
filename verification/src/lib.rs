//! Verified core of the Nyxx desktop-automation bridge.
pub mod api_server;
pub mod json;
pub mod macro_runtime;
pub mod modules;
pub mod orchestrator;
pub mod text;
pub mod trusted;
