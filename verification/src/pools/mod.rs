//! Pools: ordered stages that run packages through registered workers.

pub mod types;
pub mod validator;
pub mod traits;
pub mod standard_pool;
