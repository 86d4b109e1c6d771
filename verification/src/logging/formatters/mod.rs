//! Entry formatters: text lines and JSON objects, and the choice between them.

pub mod text;
pub mod json;

use vstd::prelude::*;
use crate::logging::formatters::json::JsonFormatter;
use crate::logging::formatters::text::{TextFormatType, TextFormatter};
use crate::logging::traits::{ascii_lower, all_ascii, LogEntry, LogFormatter};
use crate::text::str_eq;

verus! {

/// std's `str::to_lowercase` of `s` (Unicode lower-casing).
pub uninterp spec fn str_to_lowercase(s: Seq<char>) -> Seq<char>;

/// Calls std's `str::to_lowercase`. The contract names the result (a function
/// of the characters of `s`) and states what std's documentation gives for
/// ASCII text: each upper-case ASCII letter becomes its lower-case letter and
/// every other ASCII character stays.
#[verifier::external_body]
fn to_lowercase(s: &str) -> (r: String)
    ensures
        r@ == str_to_lowercase(s@),
        all_ascii(s@) ==> r@ == ascii_lower(s@),
{
    s.to_lowercase()
}

/// One of the library's formatters.
#[derive(Debug, Clone, Copy)]
pub enum AnyFormatter {
    Json(JsonFormatter),
    Text(TextFormatter),
}

/// Which formatter a format name selects: `json`, `text` and `compact` in any
/// case; anything else selects JSON.
pub enum FormatterChoice {
    Json,
    Text,
    Compact,
}

/// The formatter a lower-cased format name selects.
pub open spec fn spec_formatter_choice(lower: Seq<char>) -> FormatterChoice {
    if lower == "text"@ {
        FormatterChoice::Text
    } else if lower == "compact"@ {
        FormatterChoice::Compact
    } else {
        FormatterChoice::Json
    }
}

/// The formatter for the format name `format_type`: the default JSON
/// formatter for `json`, the default text formatter for `text`, the compact
/// text formatter for `compact` (in any case), and JSON for anything else.
pub fn create_formatter(format_type: &str) -> (r: AnyFormatter)
    ensures
        spec_formatter_choice(str_to_lowercase(format_type@)) is Json ==> (r matches AnyFormatter::Json(
            f,
        ) && !f.spec_pretty_print() && f.spec_include_metadata()),
        spec_formatter_choice(str_to_lowercase(format_type@)) is Text ==> (r matches AnyFormatter::Text(
            f,
        ) && f@.format_type == TextFormatType::Detailed && !f@.include_metadata),
        spec_formatter_choice(str_to_lowercase(format_type@)) is Compact ==> (r matches AnyFormatter::Text(
            f,
        ) && f@.format_type == TextFormatType::Compact),
        all_ascii(format_type@) ==> str_to_lowercase(format_type@) == ascii_lower(format_type@),
{
    let lower = to_lowercase(format_type);
    if str_eq(lower.as_str(), "text") {
        AnyFormatter::Text(TextFormatter::new())
    } else if str_eq(lower.as_str(), "compact") {
        AnyFormatter::Text(TextFormatter::compact())
    } else {
        AnyFormatter::Json(JsonFormatter::new())
    }
}

/// The text a formatter writes for an entry.
pub open spec fn spec_any_format(fm: AnyFormatter, e: LogEntry) -> Seq<char> {
    match fm {
        AnyFormatter::Text(f) => crate::logging::formatters::text::spec_text_line(f@, e),
        AnyFormatter::Json(f) => if f.spec_pretty_print() {
            crate::json::json_object_pretty_text(
                crate::logging::formatters::json::entry_members(f.spec_include_metadata(), e),
            )
        } else {
            crate::json::json_object_text(
                crate::logging::formatters::json::entry_members(f.spec_include_metadata(), e),
            )
        },
    }
}

impl LogFormatter for AnyFormatter {
    open spec fn renders(&self, entry: LogEntry, text: Seq<char>) -> bool {
        text == spec_any_format(*self, entry)
    }

    fn format(&self, entry: &LogEntry) -> (r: String)
        ensures
            r@ == spec_any_format(*self, *entry),
    {
        match self {
            AnyFormatter::Json(f) => f.format_entry(entry),
            AnyFormatter::Text(f) => f.format_entry(entry),
        }
    }
}

} // verus!
