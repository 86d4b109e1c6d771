//! Console routing rules: which stream a formatted entry goes to, and the
//! time stamp an enhanced console line carries.

use vstd::prelude::*;
use crate::logging::traits::LogLevel;
use crate::text::{contains, seq_contains};
use crate::time::{chrono_format, chrono_rfc3339, Timestamp};

verus! {

/// The level a formatted entry shows, read from its JSON `"level":"…"` member
/// or its `[…]` text tag; the most severe one found wins, and an entry that
/// shows none counts as Info.
pub open spec fn spec_level_of_message(m: Seq<char>) -> LogLevel {
    if seq_contains(m, "\"level\":\"ERROR\""@) || seq_contains(m, "[ERROR]"@) {
        LogLevel::Error
    } else if seq_contains(m, "\"level\":\"WARN\""@) || seq_contains(m, "[WARN]"@) {
        LogLevel::Warn
    } else if seq_contains(m, "\"level\":\"INFO\""@) || seq_contains(m, "[INFO]"@) {
        LogLevel::Info
    } else if seq_contains(m, "\"level\":\"DEBUG\""@) || seq_contains(m, "[DEBUG]"@) {
        LogLevel::Debug
    } else if seq_contains(m, "\"level\":\"TRACE\""@) || seq_contains(m, "[TRACE]"@) {
        LogLevel::Trace
    } else {
        LogLevel::Info
    }
}

/// The level a formatted entry shows.
pub fn extract_level_from_message(formatted: &str) -> (r: LogLevel)
    ensures
        r == spec_level_of_message(formatted@),
{
    if contains(formatted, "\"level\":\"ERROR\"") || contains(formatted, "[ERROR]") {
        LogLevel::Error
    } else if contains(formatted, "\"level\":\"WARN\"") || contains(formatted, "[WARN]") {
        LogLevel::Warn
    } else if contains(formatted, "\"level\":\"INFO\"") || contains(formatted, "[INFO]") {
        LogLevel::Info
    } else if contains(formatted, "\"level\":\"DEBUG\"") || contains(formatted, "[DEBUG]") {
        LogLevel::Debug
    } else if contains(formatted, "\"level\":\"TRACE\"") || contains(formatted, "[TRACE]") {
        LogLevel::Trace
    } else {
        LogLevel::Info
    }
}

/// Errors and warnings go to standard error; everything else to standard output.
pub fn should_use_stderr(formatted: &str) -> (r: bool)
    ensures
        r == (spec_level_of_message(formatted@) == LogLevel::Error || spec_level_of_message(
            formatted@,
        ) == LogLevel::Warn),
{
    match extract_level_from_message(formatted) {
        LogLevel::Error | LogLevel::Warn => true,
        _ => false,
    }
}

/// How an enhanced console line is stamped.
#[derive(Debug, Clone, Copy, PartialEq, Eq, Structural)]
pub enum TimestampFormat {
    /// No stamp.
    Unstamped,
    /// `HH:MM:SS`.
    Short,
    /// `YYYY-MM-DD HH:MM:SS`.
    Medium,
    /// RFC 3339.
    Full,
}

/// The line an enhanced console writer writes for `message` at the instant `now`.
pub open spec fn spec_stamped(f: TimestampFormat, now: Timestamp, message: Seq<char>) -> Seq<char> {
    match f {
        TimestampFormat::Unstamped => message,
        TimestampFormat::Short => chrono_format(now.spec_secs(), now.spec_nanos(), "%H:%M:%S"@)
            + " "@ + message,
        TimestampFormat::Medium => chrono_format(
            now.spec_secs(),
            now.spec_nanos(),
            "%Y-%m-%d %H:%M:%S"@,
        ) + " "@ + message,
        TimestampFormat::Full => chrono_rfc3339(now.spec_secs(), now.spec_nanos()) + " "@ + message,
    }
}

/// `message` stamped with the instant `now` in the format `f`.
pub fn add_timestamp(f: TimestampFormat, now: &Timestamp, message: &str) -> (r: String)
    ensures
        r@ == spec_stamped(f, *now, message@),
{
    let stamp = match f {
        TimestampFormat::Unstamped => {
            return String::from_str(message);
        },
        TimestampFormat::Short => now.format("%H:%M:%S"),
        TimestampFormat::Medium => now.format("%Y-%m-%d %H:%M:%S"),
        TimestampFormat::Full => now.to_rfc3339(),
    };
    let mut r = stamp;
    r.append(" ");
    r.append(message);
    r
}

} // verus!
