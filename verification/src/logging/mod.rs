//! Structured logging: levels and context, entry formatting, and writers.

pub mod traits;
pub mod formatters;
pub mod writers;
pub mod logger;
