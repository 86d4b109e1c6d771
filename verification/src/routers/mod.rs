//! Routing of packages to adapters.

pub mod types;
pub mod router;
