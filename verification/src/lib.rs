//! Loquat: a message-processing framework for bots and agents, with its
//! event model, worker pools, routing, plugin bookkeeping and logging rules.

pub mod text;
pub mod time;
pub mod json;
pub mod events;
pub mod errors;
pub mod pools;
pub mod routers;
pub mod paint;
pub mod payloads;
pub mod plugins;
pub mod logging;
pub mod repl;
pub mod cli;
