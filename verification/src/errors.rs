//! Error types shared by the library.

use vstd::prelude::*;

verus! {

/// Configuration errors.
#[derive(Debug, Clone, PartialEq, Eq)]
pub enum ConfigError {
    InvalidFormat(String),
    MissingRequired(String),
}

/// Plugin errors.
#[derive(Debug, Clone, PartialEq, Eq)]
pub enum PluginError {
    RegistryError(String),
    AlreadyExists(String),
    NotFound(String),
    LoadFailed(String),
    UnsupportedType(String),
    ReloadFailed(String),
    HotReloadError(String),
}

/// Logging errors.
#[derive(Debug, Clone, PartialEq, Eq)]
pub enum LoggingError {
    InvalidLevel(String),
    Configuration(String),
    WriteError(String),
    Initialization(String),
}

/// The framework's error type.
#[derive(Debug, Clone, PartialEq, Eq)]
pub enum LoquatError {
    Config(ConfigError),
    Plugin(PluginError),
    Logging(LoggingError),
    Io(String),
    Internal(String),
}

/// `r` failed with an invalid-format configuration error carrying `msg`.
pub open spec fn is_invalid_format<T>(r: Result<T, LoquatError>, msg: Seq<char>) -> bool {
    r matches Err(LoquatError::Config(ConfigError::InvalidFormat(m))) && m@ == msg
}

/// `r` failed with a missing-required configuration error carrying `msg`.
pub open spec fn is_missing_required<T>(r: Result<T, LoquatError>, msg: Seq<char>) -> bool {
    r matches Err(LoquatError::Config(ConfigError::MissingRequired(m))) && m@ == msg
}

} // verus!
