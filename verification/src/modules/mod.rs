//! Input events, macro data and the language-model client's logic.
pub mod cognition;
pub mod io_controller;
pub mod macro_engine;
