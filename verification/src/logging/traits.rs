//! Logging vocabulary: levels, context, entries, and the formatter and
//! writer interfaces.

use vstd::prelude::*;
use crate::errors::{LoggingError, LoquatError};
use crate::json::JsonMap;
use crate::text::{opt_view, str_eq};
use crate::time::Timestamp;

verus! {

/// Log levels, from the most verbose to the most severe.
#[derive(Debug, Clone, Copy, PartialEq, Eq, Structural, Hash)]
pub enum LogLevel {
    Trace,
    Debug,
    Info,
    Warn,
    Error,
}

/// The rank of a level: Trace 0 up to Error 4.
pub open spec fn level_rank(l: LogLevel) -> nat {
    match l {
        LogLevel::Trace => 0,
        LogLevel::Debug => 1,
        LogLevel::Info => 2,
        LogLevel::Warn => 3,
        LogLevel::Error => 4,
    }
}

/// The upper-case name of a level.
pub open spec fn level_name(l: LogLevel) -> Seq<char> {
    match l {
        LogLevel::Trace => "TRACE"@,
        LogLevel::Debug => "DEBUG"@,
        LogLevel::Info => "INFO"@,
        LogLevel::Warn => "WARN"@,
        LogLevel::Error => "ERROR"@,
    }
}

/// Levels rise from trace through debug, info and warn to error, and each
/// is named in capitals: TRACE, DEBUG, INFO, WARN, ERROR.
pub proof fn lemma_levels()
    ensures
        level_rank(LogLevel::Trace) < level_rank(LogLevel::Debug),
        level_rank(LogLevel::Debug) < level_rank(LogLevel::Info),
        level_rank(LogLevel::Info) < level_rank(LogLevel::Warn),
        level_rank(LogLevel::Warn) < level_rank(LogLevel::Error),
        level_name(LogLevel::Trace) == "TRACE"@,
        level_name(LogLevel::Debug) == "DEBUG"@,
        level_name(LogLevel::Info) == "INFO"@,
        level_name(LogLevel::Warn) == "WARN"@,
        level_name(LogLevel::Error) == "ERROR"@,
{
}

/// The level whose upper-case name is `s`.
pub open spec fn level_of_name(s: Seq<char>) -> Option<LogLevel> {
    if s == "TRACE"@ {
        Some(LogLevel::Trace)
    } else if s == "DEBUG"@ {
        Some(LogLevel::Debug)
    } else if s == "INFO"@ {
        Some(LogLevel::Info)
    } else if s == "WARN"@ {
        Some(LogLevel::Warn)
    } else if s == "ERROR"@ {
        Some(LogLevel::Error)
    } else {
        None
    }
}

/// std's `str::to_uppercase` of `s` (Unicode upper-casing).
pub uninterp spec fn str_to_uppercase(s: Seq<char>) -> Seq<char>;

/// Every character of `s` is ASCII.
pub open spec fn all_ascii(s: Seq<char>) -> bool {
    forall|i: int| 0 <= i < s.len() ==> (s[i] as u32) < 128
}

/// ASCII upper-casing of one character.
pub open spec fn ascii_upper_char(c: char) -> char {
    if 'a' <= c && c <= 'z' {
        ((c as u32) - 32) as char
    } else {
        c
    }
}

/// ASCII upper-casing of `s`, character by character.
pub open spec fn ascii_upper(s: Seq<char>) -> Seq<char> {
    s.map_values(|c: char| ascii_upper_char(c))
}

/// Calls std's `str::to_uppercase`. The contract names the result (a function
/// of the characters of `s`) and states what std's documentation gives for
/// ASCII text: each lower-case ASCII letter becomes its upper-case letter and
/// every other ASCII character stays.
#[verifier::external_body]
fn to_uppercase(s: &str) -> (r: String)
    ensures
        r@ == str_to_uppercase(s@),
        all_ascii(s@) ==> r@ == ascii_upper(s@),
{
    s.to_uppercase()
}

/// ASCII lower-casing of one character.
pub open spec fn ascii_lower_char(c: char) -> char {
    if 'A' <= c && c <= 'Z' {
        ((c as u32) + 32) as char
    } else {
        c
    }
}

/// ASCII lower-casing of `s`, character by character.
pub open spec fn ascii_lower(s: Seq<char>) -> Seq<char> {
    s.map_values(|c: char| ascii_lower_char(c))
}

/// The result of parsing `s` as a level name, in any case.
pub open spec fn spec_level_from_str(s: Seq<char>) -> Option<LogLevel> {
    level_of_name(str_to_uppercase(s))
}

impl LogLevel {
    /// The upper-case name.
    pub fn as_str(&self) -> (r: &'static str)
        ensures
            r@ == level_name(*self),
    {
        match self {
            LogLevel::Trace => "TRACE",
            LogLevel::Debug => "DEBUG",
            LogLevel::Info => "INFO",
            LogLevel::Warn => "WARN",
            LogLevel::Error => "ERROR",
        }
    }

    /// The upper-case name, as an owned string.
    pub fn to_string(&self) -> (r: String)
        ensures
            r@ == level_name(*self),
    {
        String::from_str(self.as_str())
    }

    /// The rank: Trace 0 up to Error 4.
    pub fn rank(&self) -> (r: u8)
        ensures
            r == level_rank(*self),
    {
        match self {
            LogLevel::Trace => 0,
            LogLevel::Debug => 1,
            LogLevel::Info => 2,
            LogLevel::Warn => 3,
            LogLevel::Error => 4,
        }
    }

    /// Parse a level name in any case; anything else is an invalid level.
    pub fn from_str(s: &str) -> (r: Result<LogLevel, LoquatError>)
        ensures
            r is Ok <==> spec_level_from_str(s@) is Some,
            r matches Ok(l) ==> spec_level_from_str(s@) == Some(l),
            r matches Err(e) ==> (e matches LoquatError::Logging(LoggingError::InvalidLevel(m))
                && m@ == s@),
            all_ascii(s@) ==> spec_level_from_str(s@) == level_of_name(ascii_upper(s@)),
    {
        let up = to_uppercase(s);
        let u = up.as_str();
        proof {
            reveal_strlit("TRACE");
            reveal_strlit("DEBUG");
            reveal_strlit("INFO");
            reveal_strlit("WARN");
            reveal_strlit("ERROR");
        }
        if str_eq(u, "TRACE") {
            Ok(LogLevel::Trace)
        } else if str_eq(u, "DEBUG") {
            Ok(LogLevel::Debug)
        } else if str_eq(u, "INFO") {
            Ok(LogLevel::Info)
        } else if str_eq(u, "WARN") {
            Ok(LogLevel::Warn)
        } else if str_eq(u, "ERROR") {
            Ok(LogLevel::Error)
        } else {
            Err(LoquatError::Logging(LoggingError::InvalidLevel(String::from_str(s))))
        }
    }

    /// Whether an entry at this level passes the minimum `min_level`.
    pub fn should_log(&self, min_level: LogLevel) -> (r: bool)
        ensures
            r == (level_rank(*self) >= level_rank(min_level)),
    {
        self.rank() >= min_level.rank()
    }
}

/// A level's name is ASCII, and upper-casing it changes nothing, so it
/// reads back as that level.
pub proof fn lemma_level_name_round_trip(l: LogLevel)
    ensures
        all_ascii(level_name(l)),
        level_of_name(ascii_upper(level_name(l))) == Some(l),
{
    reveal_strlit("TRACE");
    reveal_strlit("DEBUG");
    reveal_strlit("INFO");
    reveal_strlit("WARN");
    reveal_strlit("ERROR");
    let s = level_name(l);
    assert forall|i: int| 0 <= i < s.len() implies ascii_upper_char(s[i]) == s[i] by {
        assert(s[i] < 'a' || s[i] > 'z');
    }
    assert(ascii_upper(s) =~= s);
    match l {
        LogLevel::Trace => {},
        LogLevel::Debug => {
            assert(s[0] != "TRACE"@[0]);
        },
        LogLevel::Info => {
            assert(s.len() != "TRACE"@.len());
            assert(s[0] != "DEBUG"@[0]);
        },
        LogLevel::Warn => {
            assert(s.len() != "TRACE"@.len());
            assert(s[0] != "DEBUG"@[0]);
            assert(s[0] != "INFO"@[0]);
        },
        LogLevel::Error => {
            assert(s[0] != "TRACE"@[0]);
            assert(s[0] != "DEBUG"@[0]);
            assert(s[0] != "INFO"@[0]);
            assert(s[0] != "WARN"@[0]);
        },
    }
}

/// Where a request came from.
#[derive(Debug, Clone)]
pub struct RequestInfo {
    pub method: String,
    pub path: String,
    pub user_agent: Option<String>,
    pub remote_addr: Option<String>,
}

impl RequestInfo {
    /// A request with a method and a path, nothing else known.
    pub fn new(method: &str, path: &str) -> (r: Self)
        ensures
            r.method@ == method@,
            r.path@ == path@,
            r.user_agent is None,
            r.remote_addr is None,
    {
        RequestInfo {
            method: String::from_str(method),
            path: String::from_str(path),
            user_agent: None,
            remote_addr: None,
        }
    }
}

/// The context an entry is logged in.
#[derive(Debug)]
pub struct LogContext {
    pub correlation_id: Option<String>,
    pub user_id: Option<String>,
    pub session_id: Option<String>,
    pub request_info: Option<RequestInfo>,
    pub component: Option<String>,
    /// Further members, each a JSON value text.
    pub metadata: JsonMap,
}

impl Clone for LogContext {
    fn clone(&self) -> (r: Self)
        ensures
            opt_view(r.correlation_id) == opt_view(self.correlation_id),
            opt_view(r.user_id) == opt_view(self.user_id),
            opt_view(r.session_id) == opt_view(self.session_id),
            opt_view(r.component) == opt_view(self.component),
            r.metadata@ == self.metadata@,
    {
        LogContext {
            correlation_id: crate::text::opt_owned(crate::text::opt_as_str(&self.correlation_id)),
            user_id: crate::text::opt_owned(crate::text::opt_as_str(&self.user_id)),
            session_id: crate::text::opt_owned(crate::text::opt_as_str(&self.session_id)),
            request_info: self.request_info.clone(),
            component: crate::text::opt_owned(crate::text::opt_as_str(&self.component)),
            metadata: self.metadata.clone(),
        }
    }
}

impl LogContext {
    /// An empty context.
    pub fn new() -> (r: Self)
        ensures
            r.correlation_id is None,
            r.user_id is None,
            r.session_id is None,
            r.request_info is None,
            r.component is None,
            r.metadata@.len() == 0,
    {
        LogContext {
            correlation_id: None,
            user_id: None,
            session_id: None,
            request_info: None,
            component: None,
            metadata: JsonMap::new(),
        }
    }

    /// The context of the current task: an empty one.
    pub fn current() -> (r: Self)
        ensures
            r.correlation_id is None,
            r.user_id is None,
            r.session_id is None,
            r.request_info is None,
            r.component is None,
            r.metadata@.len() == 0,
    {
        Self::new()
    }

    /// An empty context carrying a correlation id.
    pub fn with_correlation_id(correlation_id: String) -> (r: Self)
        ensures
            r.correlation_id == Some(correlation_id),
            r.user_id is None,
            r.session_id is None,
            r.request_info is None,
            r.component is None,
            r.metadata@.len() == 0,
    {
        let mut ctx = Self::new();
        ctx.correlation_id = Some(correlation_id);
        ctx
    }

    /// With the metadata member `key` set to the JSON value text `json`.
    pub fn with_metadata(self, key: &str, json: &str) -> (r: Self)
        ensures
            crate::json::map_get(r.metadata@, key@) == Some(json@),
            forall|k: Seq<char>|
                k != key@ ==> crate::json::map_get(r.metadata@, k) == crate::json::map_get(
                    self.metadata@,
                    k,
                ),
            r.correlation_id == self.correlation_id && r.user_id == self.user_id && r.session_id
                == self.session_id && r.request_info == self.request_info && r.component
                == self.component,
    {
        let mut c = self;
        c.metadata.set(key, json);
        c
    }

    /// Set the metadata member `key` to the JSON value text `json`.
    pub fn add(&mut self, key: &str, json: &str)
        ensures
            crate::json::map_get(final(self).metadata@, key@) == Some(json@),
            forall|k: Seq<char>|
                k != key@ ==> crate::json::map_get(final(self).metadata@, k) == crate::json::map_get(
                    old(self).metadata@,
                    k,
                ),
            final(self).correlation_id == old(self).correlation_id && final(self).user_id == old(
                self,
            ).user_id && final(self).session_id == old(self).session_id && final(self).request_info
                == old(self).request_info && final(self).component == old(self).component,
    {
        self.metadata.set(key, json);
    }

    /// With the component `component`.
    pub fn with_component(self, component: &str) -> (r: Self)
        ensures
            opt_view(r.component) == Some(component@),
            r.correlation_id == self.correlation_id && r.user_id == self.user_id && r.session_id
                == self.session_id && r.request_info == self.request_info && r.metadata
                == self.metadata,
    {
        LogContext { component: Some(String::from_str(component)), ..self }
    }
}

impl Default for LogContext {
    fn default() -> (r: Self)
        ensures
            r.correlation_id is None,
            r.user_id is None,
            r.session_id is None,
            r.request_info is None,
            r.component is None,
            r.metadata@.len() == 0,
    {
        Self::new()
    }
}

/// One log entry.
#[derive(Debug)]
pub struct LogEntry {
    pub timestamp: Timestamp,
    pub level: LogLevel,
    pub message: String,
    pub context: LogContext,
    pub module: Option<String>,
    pub file: Option<String>,
    pub line: Option<u32>,
}

impl Clone for LogEntry {
    fn clone(&self) -> (r: Self)
        ensures
            r.timestamp == self.timestamp,
            r.level == self.level,
            r.message == self.message,
            opt_view(r.context.correlation_id) == opt_view(self.context.correlation_id),
            opt_view(r.context.user_id) == opt_view(self.context.user_id),
            opt_view(r.context.session_id) == opt_view(self.context.session_id),
            opt_view(r.context.component) == opt_view(self.context.component),
            r.context.metadata@ == self.context.metadata@,
            opt_view(r.module) == opt_view(self.module),
            opt_view(r.file) == opt_view(self.file),
            r.line == self.line,
    {
        LogEntry {
            timestamp: self.timestamp,
            level: self.level,
            message: self.message.clone(),
            context: self.context.clone(),
            module: crate::text::opt_owned(crate::text::opt_as_str(&self.module)),
            file: crate::text::opt_owned(crate::text::opt_as_str(&self.file)),
            line: self.line,
        }
    }
}

impl LogEntry {
    /// An entry stamped with the current time, without a source location.
    pub fn new(level: LogLevel, message: String, context: LogContext) -> (r: Self)
        ensures
            r.level == level,
            r.message == message,
            r.context == context,
            r.module is None,
            r.file is None,
            r.line is None,
    {
        LogEntry {
            timestamp: Timestamp::now(),
            level,
            message,
            context,
            module: None,
            file: None,
            line: None,
        }
    }

    /// An entry with the given time stamp, without a source location.
    pub fn at(timestamp: Timestamp, level: LogLevel, message: String, context: LogContext) -> (r: Self)
        ensures
            r.timestamp == timestamp,
            r.level == level,
            r.message == message,
            r.context == context,
            r.module is None,
            r.file is None,
            r.line is None,
    {
        LogEntry { timestamp, level, message, context, module: None, file: None, line: None }
    }

    /// With the source location where it was logged.
    pub fn with_location(self, module: &str, file: &str, line: u32) -> (r: Self)
        ensures
            opt_view(r.module) == Some(module@),
            opt_view(r.file) == Some(file@),
            r.line == Some(line),
            r.timestamp == self.timestamp && r.level == self.level && r.message == self.message
                && r.context == self.context,
    {
        LogEntry {
            module: Some(String::from_str(module)),
            file: Some(String::from_str(file)),
            line: Some(line),
            ..self
        }
    }
}

/// Turns entries into text.
pub trait LogFormatter {
    /// Whether `text` is a rendering of `entry` that this formatter may give.
    open spec fn renders(&self, entry: LogEntry, text: Seq<char>) -> bool {
        true
    }

    /// The text of one entry.
    fn format(&self, entry: &LogEntry) -> (r: String)
        ensures
            self.renders(*entry, r@),
    ;

    /// The text of each entry, in order.
    fn format_batch(&self, entries: &[LogEntry]) -> (r: Vec<String>)
        ensures
            r@.len() == entries@.len(),
            forall|i: int| 0 <= i < entries@.len() ==> self.renders(entries@[i], #[trigger] r@[i]@),
    {
        let n = entries.len();
        let mut out: Vec<String> = Vec::new();
        let mut i: usize = 0;
        while i < n
            invariant
                n == entries@.len(),
                i <= n,
                out@.len() == i,
                forall|j: int| 0 <= j < i ==> self.renders(entries@[j], #[trigger] out@[j]@),
            decreases n - i,
        {
            out.push(self.format(&entries[i]));
            i = i + 1;
        }
        out
    }
}

/// `r` is what writing the texts `texts`, in order, through `w` gives when
/// writing stops at the first failure, the writes having given `results`:
/// every write but the last succeeded, and either all texts were written
/// and `r` is `Ok`, or the last write failed and `r` is its failure.
pub open spec fn writes_stop_at_failure<W: LogWriter + ?Sized>(
    w: &W,
    texts: Seq<Seq<char>>,
    results: Seq<Result<(), LoquatError>>,
    r: Result<(), LoquatError>,
) -> bool {
    &&& results.len() <= texts.len()
    &&& forall|i: int| 0 <= i < results.len() ==> w.may_write(texts[i], #[trigger] results[i])
    &&& forall|i: int| 0 <= i < results.len() - 1 ==> (#[trigger] results[i]) is Ok
    &&& r is Ok ==> results.len() == texts.len() && (results.len() == 0 || results.last() is Ok)
    &&& r is Err ==> results.len() > 0 && r == results.last()
}

/// `r` is what writing `texts`, in order, through `w` may give when writing
/// stops at the first failure.
pub open spec fn written_in_order<W: LogWriter + ?Sized>(
    w: &W,
    texts: Seq<Seq<char>>,
    r: Result<(), LoquatError>,
) -> bool {
    exists|results: Seq<Result<(), LoquatError>>| #[trigger]
        writes_stop_at_failure(w, texts, results, r)
}

/// The texts of strings.
pub open spec fn texts_of(s: Seq<String>) -> Seq<Seq<char>> {
    s.map_values(|x: String| x@)
}

/// Puts formatted entries somewhere.
pub trait LogWriter {
    /// Whether `r` is a result that writing the text `formatted` may give;
    /// each implementation says when.
    open spec fn may_write(&self, formatted: Seq<char>, r: Result<(), LoquatError>) -> bool {
        arbitrary()
    }

    /// Whether `r` is a result that flushing may give; each implementation
    /// says when.
    open spec fn may_flush(&self, r: Result<(), LoquatError>) -> bool {
        arbitrary()
    }

    /// Write one formatted entry.
    fn write(&self, formatted: &str) -> (r: Result<(), LoquatError>)
        ensures
            self.may_write(formatted@, r),
    ;

    /// Write several formatted entries in order, stopping at the first failure.
    /// An empty batch writes nothing and succeeds.
    fn write_batch(&self, formatted_entries: &[String]) -> (r: Result<(), LoquatError>)
        ensures
            formatted_entries@.len() == 0 ==> r is Ok,
            exists|results: Seq<Result<(), LoquatError>>|
                #![trigger results.len()]
                {
                &&& results.len() <= formatted_entries@.len()
                &&& forall|i: int|
                    0 <= i < results.len() ==> self.may_write(
                        formatted_entries@[i]@,
                        #[trigger] results[i],
                    )
                &&& forall|i: int| 0 <= i < results.len() - 1 ==> (#[trigger] results[i]) is Ok
                &&& r is Ok ==> results.len() == formatted_entries@.len() && (results.len() == 0
                    || results.last() is Ok)
                &&& r is Err ==> results.len() > 0 && r == results.last()
            },
    {
        let ghost mut results: Seq<Result<(), LoquatError>> = Seq::empty();
        let n = formatted_entries.len();
        let mut i: usize = 0;
        while i < n
            invariant
                n == formatted_entries@.len(),
                i <= n,
                results.len() == i,
                forall|j: int|
                    0 <= j < i ==> self.may_write(formatted_entries@[j]@, #[trigger] results[j]),
                forall|j: int| 0 <= j < i ==> (#[trigger] results[j]) is Ok,
            decreases n - i,
        {
            let w = self.write(formatted_entries[i].as_str());
            proof {
                let before = results;
                results = results.push(w);
                assert(results[i as int] == w);
                assert forall|j: int| 0 <= j < i implies results[j] == before[j] by {}
            }
            match w {
                Ok(()) => {},
                Err(e) => {
                    assert(forall|j: int|
                        0 <= j < results.len() ==> self.may_write(
                            formatted_entries@[j]@,
                            #[trigger] results[j],
                        ));
                    assert(forall|j: int| 0 <= j < results.len() - 1 ==> (#[trigger] results[j]) is Ok);
                    assert(Err::<(), LoquatError>(e) == results.last());
                    return Err(e);
                },
            }
            i = i + 1;
        }
        assert(results.len() == 0 || results.last() is Ok) by {
            if results.len() > 0 {
                assert(results[results.len() - 1] is Ok);
            }
        }
        Ok(())
    }

    /// Flush what is buffered.
    fn flush(&self) -> (r: Result<(), LoquatError>)
        ensures
            self.may_flush(r),
    ;
}

/// How entries are rendered.
#[derive(Debug, Clone)]
pub enum LogFormat {
    Json,
    Text,
    Compact,
    Custom(String),
}

/// Where entries go.
#[derive(Debug, Clone)]
pub enum LogOutput {
    Console,
    File { path: String },
    Both { path: String },
    Custom(String),
}

/// A logger's configuration.
#[derive(Debug, Clone)]
pub struct LoggerConfig {
    pub level: LogLevel,
    pub format: LogFormat,
    pub output: LogOutput,
    pub enable_async: bool,
    pub buffer_size: Option<usize>,
    pub max_file_size: Option<u64>,
    pub max_files: Option<usize>,
}

impl Default for LoggerConfig {
    /// Info and above, as JSON, to the console, buffered for 1000 entries,
    /// files of at most 10 MiB, five of them.
    fn default() -> (r: Self)
        ensures
            r.level == LogLevel::Info,
            r.format is Json,
            r.output is Console,
            r.enable_async,
            r.buffer_size == Some(1000usize),
            r.max_file_size == Some(10_485_760u64),
            r.max_files == Some(5usize),
    {
        LoggerConfig {
            level: LogLevel::Info,
            format: LogFormat::Json,
            output: LogOutput::Console,
            enable_async: true,
            buffer_size: Some(1000),
            max_file_size: Some(10 * 1024 * 1024),
            max_files: Some(5),
        }
    }
}

/// Level filtering is a total order: of two levels one always passes the
/// other, a level passes itself, and passing chains.
pub proof fn lemma_should_log_total_order(a: LogLevel, b: LogLevel, c: LogLevel)
    ensures
        level_rank(a) >= level_rank(b) || level_rank(b) >= level_rank(a),
        level_rank(a) >= level_rank(a),
        level_rank(a) >= level_rank(b) && level_rank(b) >= level_rank(c) ==> level_rank(a)
            >= level_rank(c),
        level_rank(a) == level_rank(b) ==> a == b,
{
}

} // verus!
