//! Payloads: the typed content a package can carry.

pub mod types;
pub mod adapter;
pub mod registry;
