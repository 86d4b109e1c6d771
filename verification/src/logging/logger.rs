//! The structured logger: level gating in front of a formatter and a writer.

use vstd::prelude::*;
use crate::errors::{LoggingError, LoquatError};
use crate::logging::traits::{
    level_rank, writes_stop_at_failure, LogContext, LogEntry, LogFormatter, LogLevel, LogWriter,
};
use crate::text::opt_view;

verus! {

/// The message of a logger used before it was initialized.
pub open spec fn not_initialized_message() -> Seq<char> {
    "Logger not initialized. Call init() or initialize() first."@
}

/// `r` is the error of a logger used before it was initialized.
pub open spec fn is_not_initialized<T>(r: Result<T, LoquatError>) -> bool {
    r matches Err(LoquatError::Logging(LoggingError::Initialization(m))) && m@
        == not_initialized_message()
}

/// `c` is a copy of the context `of`: the same ids, component and metadata.
pub open spec fn context_copy(c: LogContext, of: LogContext) -> bool {
    &&& opt_view(c.correlation_id) == opt_view(of.correlation_id)
    &&& opt_view(c.user_id) == opt_view(of.user_id)
    &&& opt_view(c.session_id) == opt_view(of.session_id)
    &&& opt_view(c.component) == opt_view(of.component)
    &&& c.metadata@ == of.metadata@
}

/// `e` is a copy of the entry `of`.
pub open spec fn entry_copy(e: LogEntry, of: LogEntry) -> bool {
    &&& e.timestamp == of.timestamp
    &&& e.level == of.level
    &&& e.message == of.message
    &&& context_copy(e.context, of.context)
    &&& opt_view(e.module) == opt_view(of.module)
    &&& opt_view(e.file) == opt_view(of.file)
    &&& e.line == of.line
}

/// `e` is an entry logged at `level` with `message` in a copy of `context`,
/// with the source location `location` when one is given.
pub open spec fn entry_for(
    e: LogEntry,
    level: LogLevel,
    message: Seq<char>,
    context: LogContext,
    location: Option<(Seq<char>, Seq<char>, u32)>,
) -> bool {
    &&& e.level == level
    &&& e.message@ == message
    &&& context_copy(e.context, context)
    &&& match location {
        Some((m, f, l)) => opt_view(e.module) == Some(m) && opt_view(e.file) == Some(f) && e.line
            == Some(l),
        None => e.module is None && e.file is None && e.line is None,
    }
}

/// `e` was rendered by `f` as `t`, and writing `t` through `w` gave `r`.
pub open spec fn entry_written<F: LogFormatter, W: LogWriter>(
    f: F,
    w: W,
    e: LogEntry,
    t: Seq<char>,
    r: Result<(), LoquatError>,
) -> bool {
    f.renders(e, t) && w.may_write(t, r)
}

/// The entries of `entries` at or above `min`, in order.
pub open spec fn passing(entries: Seq<LogEntry>, min: LogLevel) -> Seq<LogEntry> {
    entries.filter(|e: LogEntry| level_rank(e.level) >= level_rank(min))
}

/// Copies `kept` of the passing entries were rendered by `f` as `lines`,
/// which were written through `w`, in order, stopping at the first failure,
/// the writes giving `results` and the whole `r`.
pub open spec fn batch_written<F: LogFormatter, W: LogWriter>(
    f: F,
    w: W,
    passing: Seq<LogEntry>,
    kept: Seq<LogEntry>,
    lines: Seq<Seq<char>>,
    results: Seq<Result<(), LoquatError>>,
    r: Result<(), LoquatError>,
) -> bool {
    &&& kept.len() == passing.len()
    &&& forall|i: int| 0 <= i < kept.len() ==> entry_copy(#[trigger] kept[i], passing[i])
    &&& lines.len() == kept.len()
    &&& forall|i: int| 0 <= i < kept.len() ==> f.renders(kept[i], #[trigger] lines[i])
    &&& writes_stop_at_failure(&w, lines, results, r)
}

/// A logger: entries at or above its level are formatted and written, once
/// it has been initialized.
#[derive(Debug)]
pub struct StructuredLogger<F, W> {
    formatter: F,
    writer: W,
    min_level: LogLevel,
    initialized: bool,
}

impl<F: LogFormatter, W: LogWriter> StructuredLogger<F, W> {
    /// The minimum level.
    pub closed spec fn spec_level(&self) -> LogLevel {
        self.min_level
    }

    /// Whether it has been initialized.
    pub closed spec fn spec_initialized(&self) -> bool {
        self.initialized
    }

    /// Its formatter.
    pub closed spec fn spec_formatter(&self) -> F {
        self.formatter
    }

    /// Its writer.
    pub closed spec fn spec_writer(&self) -> W {
        self.writer
    }

    /// A logger at level Info, not yet initialized.
    pub fn new(formatter: F, writer: W) -> (r: Self)
        ensures
            r.spec_formatter() == formatter,
            r.spec_writer() == writer,
            r.spec_level() == LogLevel::Info,
            !r.spec_initialized(),
    {
        StructuredLogger { formatter, writer, min_level: LogLevel::Info, initialized: false }
    }

    /// A logger at `level`, not yet initialized.
    pub fn with_level(formatter: F, writer: W, level: LogLevel) -> (r: Self)
        ensures
            r.spec_formatter() == formatter,
            r.spec_writer() == writer,
            r.spec_level() == level,
            !r.spec_initialized(),
    {
        StructuredLogger { formatter, writer, min_level: level, initialized: false }
    }

    /// Mark it initialized.
    pub fn initialize(&mut self)
        ensures
            final(self).spec_initialized(),
            final(self).spec_level() == old(self).spec_level(),
            final(self).spec_formatter() == old(self).spec_formatter(),
            final(self).spec_writer() == old(self).spec_writer(),
    {
        self.initialized = true;
    }

    /// Whether it has been initialized.
    pub fn is_initialized(&self) -> (r: bool)
        ensures
            r == self.spec_initialized(),
    {
        self.initialized
    }

    /// Refused until initialized.
    fn ensure_initialized(&self) -> (r: Result<(), LoquatError>)
        ensures
            r is Ok <==> self.spec_initialized(),
            !self.spec_initialized() ==> is_not_initialized(r),
    {
        if !self.initialized {
            return Err(
                LoquatError::Logging(
                    LoggingError::Initialization(
                        String::from_str(
                            "Logger not initialized. Call init() or initialize() first.",
                        ),
                    ),
                ),
            );
        }
        Ok(())
    }

    /// Log `message` at `level` in `context`, with a source location when all
    /// three parts are given. Refused before initialization; below the level
    /// nothing is written.
    fn log_internal(
        &self,
        level: LogLevel,
        message: &str,
        context: &LogContext,
        location: Option<(&str, &str, u32)>,
    ) -> (r: Result<(), LoquatError>)
        ensures
            !self.spec_initialized() ==> is_not_initialized(r),
            self.spec_initialized() && level_rank(level) < level_rank(self.spec_level()) ==> r is Ok,
            self.spec_initialized() && level_rank(level) >= level_rank(self.spec_level()) ==> exists|
                e: LogEntry,
                t: Seq<char>,
            |
                #[trigger] entry_written(self.spec_formatter(), self.spec_writer(), e, t, r)
                    && entry_for(
                    e,
                    level,
                    message@,
                    *context,
                    match location {
                        Some((m, f, l)) => Some((m@, f@, l)),
                        None => None,
                    },
                ),
    {
        match self.ensure_initialized() {
            Ok(()) => {},
            Err(e) => {
                return Err(e);
            },
        }
        if !level.should_log(self.min_level) {
            return Ok(());
        }
        let mut entry = LogEntry::new(level, String::from_str(message), context.clone());
        if let Some((module, file, line)) = location {
            entry = entry.with_location(module, file, line);
        }
        let formatted = self.formatter.format(&entry);
        let r = self.writer.write(formatted.as_str());
        assert(entry_written(self.spec_formatter(), self.spec_writer(), entry, formatted@, r));
        assert(context_copy(entry.context, *context));
        assert(entry.level == level && entry.message@ == message@);
        assert(entry_for(
            entry,
            level,
            message@,
            *context,
            match location {
                Some((m, f, l)) => Some((m@, f@, l)),
                None => None,
            },
        ));
        r
    }

    /// Log `message` at `level` in `context`.
    pub fn log(&self, level: LogLevel, message: &str, context: &LogContext) -> (r: Result<
        (),
        LoquatError,
    >)
        ensures
            !self.spec_initialized() ==> is_not_initialized(r),
            self.spec_initialized() && level_rank(level) < level_rank(self.spec_level()) ==> r is Ok,
            self.spec_initialized() && level_rank(level) >= level_rank(self.spec_level()) ==> exists|
                e: LogEntry,
                t: Seq<char>,
            |
                #[trigger] entry_written(self.spec_formatter(), self.spec_writer(), e, t, r)
                    && entry_for(e, level, message@, *context, None),
    {
        self.log_internal(level, message, context, None)
    }

    /// Log `message` at `level` in `context`, from `module` at `file`:`line`.
    pub fn log_with_location(
        &self,
        level: LogLevel,
        message: &str,
        context: &LogContext,
        module: &str,
        file: &str,
        line: u32,
    ) -> (r: Result<(), LoquatError>)
        ensures
            !self.spec_initialized() ==> is_not_initialized(r),
            self.spec_initialized() && level_rank(level) < level_rank(self.spec_level()) ==> r is Ok,
            self.spec_initialized() && level_rank(level) >= level_rank(self.spec_level()) ==> exists|
                e: LogEntry,
                t: Seq<char>,
            |
                #[trigger] entry_written(self.spec_formatter(), self.spec_writer(), e, t, r)
                    && entry_for(e, level, message@, *context, Some((module@, file@, line))),
    {
        self.log_internal(level, message, context, Some((module, file, line)))
    }

    /// Log the entries at or above the level, in order, stopping at the first
    /// failed write. Refused before initialization.
    pub fn log_batch(&self, entries: &[LogEntry]) -> (r: Result<(), LoquatError>)
        ensures
            !self.spec_initialized() ==> is_not_initialized(r),
            self.spec_initialized() && (forall|i: int|
                0 <= i < entries@.len() ==> level_rank(#[trigger] entries@[i].level) < level_rank(
                    self.spec_level(),
                )) ==> r is Ok,
            self.spec_initialized() ==> exists|
                kept: Seq<LogEntry>,
                lines: Seq<Seq<char>>,
                results: Seq<Result<(), LoquatError>>,
            |
                #[trigger] batch_written(
                    self.spec_formatter(),
                    self.spec_writer(),
                    passing(entries@, self.spec_level()),
                    kept,
                    lines,
                    results,
                    r,
                ),
    {
        match self.ensure_initialized() {
            Ok(()) => {},
            Err(e) => {
                return Err(e);
            },
        }
        let ghost pass = passing(entries@, self.min_level);
        let ghost pred = |e: LogEntry| level_rank(e.level) >= level_rank(self.min_level);
        let mut kept: Vec<LogEntry> = Vec::new();
        let n = entries.len();
        let mut i: usize = 0;
        while i < n
            invariant
                n == entries@.len(),
                i <= n,
                pred == (|e: LogEntry| level_rank(e.level) >= level_rank(self.min_level)),
                kept@.len() == entries@.subrange(0, i as int).filter(pred).len(),
                forall|k: int|
                    0 <= k < kept@.len() ==> entry_copy(
                        #[trigger] kept@[k],
                        entries@.subrange(0, i as int).filter(pred)[k],
                    ),
                (forall|k: int|
                    0 <= k < i ==> level_rank(#[trigger] entries@[k].level) < level_rank(
                        self.min_level,
                    )) ==> kept@.len() == 0,
            decreases n - i,
        {
            proof {
                let pre = entries@.subrange(0, i as int);
                assert(entries@.subrange(0, i + 1) =~= pre.push(entries@[i as int]));
                pre.lemma_filter_push(entries@[i as int], pred);
            }
            if entries[i].level.should_log(self.min_level) {
                let c = entries[i].clone();
                kept.push(c);
            }
            i = i + 1;
        }
        proof {
            assert(entries@.subrange(0, n as int) =~= entries@);
        }
        assert(pass == entries@.filter(pred));
        let formatted = self.formatter.format_batch(kept.as_slice());
        let ghost lines = formatted@.map_values(|x: String| x@);
        assert forall|k: int| 0 <= k < kept@.len() implies self.formatter.renders(
            kept@[k],
            #[trigger] lines[k],
        ) by {
            assert(lines[k] == formatted@[k]@);
        }
        let ghost mut results: Seq<Result<(), LoquatError>> = Seq::empty();
        let m = formatted.len();
        let mut j: usize = 0;
        while j < m
            invariant
                m == formatted@.len(),
                j <= m,
                lines == formatted@.map_values(|x: String| x@),
                self.initialized,
                n == entries@.len(),
                (forall|k: int|
                    0 <= k < n ==> level_rank(#[trigger] entries@[k].level) < level_rank(
                        self.min_level,
                    )) ==> m == 0,
                pass == passing(entries@, self.min_level),
                kept@.len() == pass.len(),
                forall|k: int| 0 <= k < kept@.len() ==> entry_copy(#[trigger] kept@[k], pass[k]),
                lines.len() == kept@.len(),
                forall|k: int|
                    0 <= k < kept@.len() ==> self.formatter.renders(kept@[k], #[trigger] lines[k]),
                results.len() == j,
                forall|k: int|
                    0 <= k < j ==> self.writer.may_write(lines[k], #[trigger] results[k]),
                forall|k: int| 0 <= k < j ==> (#[trigger] results[k]) is Ok,
            decreases m - j,
        {
            let w = self.writer.write(formatted[j].as_str());
            proof {
                let before = results;
                results = results.push(w);
                assert(results[j as int] == w);
                assert forall|k: int| 0 <= k < j implies results[k] == before[k] by {}
            }
            match w {
                Ok(()) => {},
                Err(e) => {
                    assert(writes_stop_at_failure(&self.writer, lines, results, Err(e)));
                    assert(batch_written(
                        self.spec_formatter(),
                        self.spec_writer(),
                        pass,
                        kept@,
                        lines,
                        results,
                        Err(e),
                    ));
                    return Err(e);
                },
            }
            j = j + 1;
        }
        assert(results.len() == 0 || results.last() is Ok) by {
            if results.len() > 0 {
                assert(results[results.len() - 1] is Ok);
            }
        }
        assert(writes_stop_at_failure(&self.writer, lines, results, Ok(())));
        assert(batch_written(
            self.spec_formatter(),
            self.spec_writer(),
            pass,
            kept@,
            lines,
            results,
            Ok(()),
        ));
        Ok(())
    }

    /// Log one entry (subject to the level).
    pub fn log_entry(&self, entry: &LogEntry) -> (r: Result<(), LoquatError>)
        ensures
            !self.spec_initialized() ==> is_not_initialized(r),
            self.spec_initialized() && level_rank(entry.level) < level_rank(self.spec_level())
                ==> r is Ok,
            self.spec_initialized() && level_rank(entry.level) >= level_rank(self.spec_level())
                ==> exists|e: LogEntry, t: Seq<char>|
                #[trigger] entry_written(self.spec_formatter(), self.spec_writer(), e, t, r)
                    && entry_copy(e, *entry),
    {
        let mut one: Vec<LogEntry> = Vec::new();
        one.push(entry.clone());
        assert(one@.len() == 1 && one@[0].level == entry.level);
        let r = self.log_batch(one.as_slice());
        proof {
            if self.spec_initialized() && level_rank(entry.level) >= level_rank(self.spec_level()) {
                let pred = |e: LogEntry| level_rank(e.level) >= level_rank(self.spec_level());
                let c = one@[0];
                assert(one@ =~= Seq::<LogEntry>::empty().push(c));
                Seq::<LogEntry>::empty().lemma_filter_push(c, pred);
                assert(Seq::<LogEntry>::empty().filter(pred) =~= Seq::<LogEntry>::empty()) by {
                    reveal(Seq::filter);
                }
                assert(passing(one@, self.spec_level()) =~= one@);
                let (kept, lines, results) = choose|
                    kept: Seq<LogEntry>,
                    lines: Seq<Seq<char>>,
                    results: Seq<Result<(), LoquatError>>,
                |
                    batch_written(
                        self.spec_formatter(),
                        self.spec_writer(),
                        passing(one@, self.spec_level()),
                        kept,
                        lines,
                        results,
                        r,
                    );
                assert(entry_copy(kept[0], c));
                assert(self.spec_formatter().renders(kept[0], lines[0]));
                assert(results.len() == 1);
                if r is Ok {
                    assert(results.last() is Ok);
                    assert(results[0] is Ok);
                    let a = results[0]->Ok_0;
                    let b = r->Ok_0;
                    assert(a == b);
                    assert(results[0] == r);
                } else {
                    assert(results.last() == r);
                    assert(results[0] == r);
                }
                assert(self.spec_writer().may_write(lines[0], results[0]));
                assert(entry_written(self.spec_formatter(), self.spec_writer(), kept[0], lines[0], r));
            }
        }
        r
    }

    /// The minimum level.
    pub fn current_level(&self) -> (r: LogLevel)
        ensures
            r == self.spec_level(),
    {
        self.min_level
    }

    /// Set the minimum level.
    pub fn set_level(&mut self, level: LogLevel)
        ensures
            final(self).spec_level() == level,
            final(self).spec_initialized() == old(self).spec_initialized(),
            final(self).spec_formatter() == old(self).spec_formatter(),
            final(self).spec_writer() == old(self).spec_writer(),
    {
        self.min_level = level;
    }

    /// Whether entries at `level` pass.
    pub fn is_level_enabled(&self, level: LogLevel) -> (r: bool)
        ensures
            r == (level_rank(level) >= level_rank(self.spec_level())),
    {
        level.should_log(self.min_level)
    }

    /// Flush the writer.
    pub fn flush(&self) -> (r: Result<(), LoquatError>)
        ensures
            self.spec_writer().may_flush(r),
    {
        self.writer.flush()
    }
}

/// A logger, as the framework's components use it: failures to log are
/// swallowed.
pub trait Logger {
    /// Log `message` at `level` in `context`.
    fn log(&self, level: LogLevel, message: &str, context: &LogContext);

    /// Log a structured entry.
    fn log_entry(&self, entry: LogEntry);

    /// Set the minimum level.
    fn set_level(&mut self, level: LogLevel);

    /// The minimum level.
    fn get_level(&self) -> LogLevel;

    /// Whether entries at `level` pass.
    fn is_enabled(&self, level: LogLevel) -> bool {
        level.should_log(self.get_level())
    }

    /// Make the logger ready.
    fn init(&mut self) -> Result<(), LoquatError> {
        Ok(())
    }

    /// Flush what is pending.
    fn flush(&self) -> Result<(), LoquatError>;

    /// Log `message` at level Info in the current context.
    fn info(&self, message: &str) {
        self.log(LogLevel::Info, message, &LogContext::current());
    }

    /// Log `message` at `level` in `context`.
    fn log_with_context(&self, level: LogLevel, message: &str, context: &LogContext) {
        self.log(level, message, context);
    }
}

impl<F: LogFormatter, W: LogWriter> Logger for StructuredLogger<F, W> {
    /// Logs as `StructuredLogger::log` does, dropping its result.
    fn log(&self, level: LogLevel, message: &str, context: &LogContext)
        ensures
            self.spec_initialized() && level_rank(level) >= level_rank(self.spec_level()) ==> exists|
                e: LogEntry,
                t: Seq<char>,
                r: Result<(), LoquatError>,
            |
                #[trigger] entry_written(self.spec_formatter(), self.spec_writer(), e, t, r)
                    && entry_for(e, level, message@, *context, None),
    {
        let _ = StructuredLogger::log(self, level, message, context);
    }

    /// Logs as `StructuredLogger::log_entry` does, dropping its result.
    fn log_entry(&self, entry: LogEntry)
        ensures
            self.spec_initialized() && level_rank(entry.level) >= level_rank(self.spec_level())
                ==> exists|e: LogEntry, t: Seq<char>, r: Result<(), LoquatError>|
                #[trigger] entry_written(self.spec_formatter(), self.spec_writer(), e, t, r)
                    && entry_copy(e, entry),
    {
        let _ = StructuredLogger::log_entry(self, &entry);
    }

    fn set_level(&mut self, level: LogLevel)
        ensures
            final(self).spec_level() == level,
            final(self).spec_initialized() == old(self).spec_initialized(),
            final(self).spec_formatter() == old(self).spec_formatter(),
            final(self).spec_writer() == old(self).spec_writer(),
    {
        StructuredLogger::set_level(self, level);
    }

    fn get_level(&self) -> (r: LogLevel)
        ensures
            r == self.spec_level(),
    {
        self.current_level()
    }

    fn is_enabled(&self, level: LogLevel) -> (r: bool)
        ensures
            r == (level_rank(level) >= level_rank(self.spec_level())),
    {
        self.is_level_enabled(level)
    }

    /// Marks it initialized.
    fn init(&mut self) -> (r: Result<(), LoquatError>)
        ensures
            r is Ok,
            final(self).spec_initialized(),
            final(self).spec_level() == old(self).spec_level(),
            final(self).spec_formatter() == old(self).spec_formatter(),
            final(self).spec_writer() == old(self).spec_writer(),
    {
        self.initialize();
        Ok(())
    }

    fn flush(&self) -> (r: Result<(), LoquatError>)
        ensures
            self.spec_writer().may_flush(r),
    {
        StructuredLogger::flush(self)
    }
}

/// Builds a structured logger from a formatter, a writer and a level.
#[derive(Debug)]
pub struct LoggerBuilder<F, W> {
    formatter: Option<F>,
    writer: Option<W>,
    level: LogLevel,
}

impl<F: LogFormatter, W: LogWriter> LoggerBuilder<F, W> {
    /// The level it builds with.
    pub closed spec fn spec_level(&self) -> LogLevel {
        self.level
    }

    /// The formatter given, if any.
    pub closed spec fn spec_formatter(&self) -> Option<F> {
        self.formatter
    }

    /// The writer given, if any.
    pub closed spec fn spec_writer(&self) -> Option<W> {
        self.writer
    }

    /// Whether a formatter was given.
    pub open spec fn has_formatter(&self) -> bool {
        self.spec_formatter() is Some
    }

    /// Whether a writer was given.
    pub open spec fn has_writer(&self) -> bool {
        self.spec_writer() is Some
    }

    /// Nothing given yet; level Info.
    pub fn new() -> (r: Self)
        ensures
            !r.has_formatter(),
            !r.has_writer(),
            r.spec_level() == LogLevel::Info,
    {
        LoggerBuilder { formatter: None, writer: None, level: LogLevel::Info }
    }

    /// With the formatter.
    pub fn formatter(self, formatter: F) -> (r: Self)
        ensures
            r.spec_formatter() == Some(formatter),
            r.spec_writer() == self.spec_writer(),
            r.spec_level() == self.spec_level(),
    {
        LoggerBuilder { formatter: Some(formatter), ..self }
    }

    /// With the writer.
    pub fn writer(self, writer: W) -> (r: Self)
        ensures
            r.spec_writer() == Some(writer),
            r.spec_formatter() == self.spec_formatter(),
            r.spec_level() == self.spec_level(),
    {
        LoggerBuilder { writer: Some(writer), ..self }
    }

    /// With the level.
    pub fn level(self, level: LogLevel) -> (r: Self)
        ensures
            r.spec_level() == level,
            r.spec_formatter() == self.spec_formatter(),
            r.spec_writer() == self.spec_writer(),
    {
        LoggerBuilder { level, ..self }
    }

    /// An initialized logger at the level; refused without a formatter or
    /// without a writer.
    pub fn build(self) -> (r: Result<StructuredLogger<F, W>, LoquatError>)
        ensures
            !self.has_formatter() ==> (r matches Err(
                LoquatError::Logging(LoggingError::Configuration(m)),
            ) && m@ == "No formatter specified"@),
            self.has_formatter() && !self.has_writer() ==> (r matches Err(
                LoquatError::Logging(LoggingError::Configuration(m)),
            ) && m@ == "No writer specified"@),
            self.has_formatter() && self.has_writer() ==> (r matches Ok(l) && l.spec_initialized()
                && l.spec_level() == self.spec_level() && Some(l.spec_formatter())
                == self.spec_formatter() && Some(l.spec_writer()) == self.spec_writer()),
    {
        let formatter = match self.formatter {
            Some(f) => f,
            None => {
                return Err(
                    LoquatError::Logging(
                        LoggingError::Configuration(String::from_str("No formatter specified")),
                    ),
                );
            },
        };
        let writer = match self.writer {
            Some(w) => w,
            None => {
                return Err(
                    LoquatError::Logging(
                        LoggingError::Configuration(String::from_str("No writer specified")),
                    ),
                );
            },
        };
        let mut logger = StructuredLogger::with_level(formatter, writer, self.level);
        logger.initialize();
        Ok(logger)
    }
}

/// An initialized logger at `level` over the formatter and the writer.
pub fn init_with_config<F: LogFormatter, W: LogWriter>(formatter: F, writer: W, level: LogLevel) -> (r:
    StructuredLogger<F, W>)
    ensures
        r.spec_initialized(),
        r.spec_level() == level,
        r.spec_formatter() == formatter,
        r.spec_writer() == writer,
{
    let mut logger = StructuredLogger::new(formatter, writer);
    logger.set_level(level);
    logger.initialize();
    logger
}

} // verus!
