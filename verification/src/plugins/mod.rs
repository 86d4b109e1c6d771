//! Plugins: their kinds and states, the loading policy, loaders and the registry.

pub mod types;
pub mod traits;
pub mod loader;
pub mod registry;
pub mod manager;
