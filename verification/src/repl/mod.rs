//! The interactive console: commands, completion and the prompt.

pub mod commands;
pub mod actions;
pub mod engine;
