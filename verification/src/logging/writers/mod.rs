//! Writers: where formatted entries go.

pub mod console;
pub mod file;

use vstd::prelude::*;
use crate::errors::{ConfigError, LoggingError, LoquatError, PluginError};
use crate::events::target_site::{debug_quoted, str_debug_form};
use crate::logging::traits::{LogOutput, LogWriter};
use crate::text::concat2;

verus! {

/// How a derived `Debug` shows the tuple variant `name` holding a value
/// shown as `inner`.
pub open spec fn variant_text(name: Seq<char>, inner: Seq<char>) -> Seq<char> {
    name + "("@ + inner + ")"@
}

/// The text `name(inner)`.
fn variant(name: &str, inner: &str) -> (r: String)
    ensures
        r@ == variant_text(name@, inner@),
{
    let mut r = String::from_str(name);
    r.append("(");
    r.append(inner);
    r.append(")");
    r
}

/// The text `name(<Debug of s>)`.
fn string_variant(name: &str, s: &String) -> (r: String)
    ensures
        r@ == variant_text(name@, str_debug_form(s@)),
{
    let q = debug_quoted(s.as_str());
    variant(name, q.as_str())
}

/// The derived `Debug` text of a `ConfigError`.
pub open spec fn config_error_debug(e: ConfigError) -> Seq<char> {
    match e {
        ConfigError::InvalidFormat(m) => variant_text("InvalidFormat"@, str_debug_form(m@)),
        ConfigError::MissingRequired(m) => variant_text("MissingRequired"@, str_debug_form(m@)),
    }
}

/// The derived `Debug` text of a `ConfigError`.
fn config_error_debug_text(e: &ConfigError) -> (r: String)
    ensures
        r@ == config_error_debug(*e),
{
    match e {
        ConfigError::InvalidFormat(m) => string_variant("InvalidFormat", m),
        ConfigError::MissingRequired(m) => string_variant("MissingRequired", m),
    }
}

/// The derived `Debug` text of a `PluginError`.
pub open spec fn plugin_error_debug(e: PluginError) -> Seq<char> {
    match e {
        PluginError::RegistryError(m) => variant_text("RegistryError"@, str_debug_form(m@)),
        PluginError::AlreadyExists(m) => variant_text("AlreadyExists"@, str_debug_form(m@)),
        PluginError::NotFound(m) => variant_text("NotFound"@, str_debug_form(m@)),
        PluginError::LoadFailed(m) => variant_text("LoadFailed"@, str_debug_form(m@)),
        PluginError::UnsupportedType(m) => variant_text("UnsupportedType"@, str_debug_form(m@)),
        PluginError::ReloadFailed(m) => variant_text("ReloadFailed"@, str_debug_form(m@)),
        PluginError::HotReloadError(m) => variant_text("HotReloadError"@, str_debug_form(m@)),
    }
}

/// The derived `Debug` text of a `PluginError`.
fn plugin_error_debug_text(e: &PluginError) -> (r: String)
    ensures
        r@ == plugin_error_debug(*e),
{
    match e {
        PluginError::RegistryError(m) => string_variant("RegistryError", m),
        PluginError::AlreadyExists(m) => string_variant("AlreadyExists", m),
        PluginError::NotFound(m) => string_variant("NotFound", m),
        PluginError::LoadFailed(m) => string_variant("LoadFailed", m),
        PluginError::UnsupportedType(m) => string_variant("UnsupportedType", m),
        PluginError::ReloadFailed(m) => string_variant("ReloadFailed", m),
        PluginError::HotReloadError(m) => string_variant("HotReloadError", m),
    }
}

/// The derived `Debug` text of a `LoggingError`.
pub open spec fn logging_error_debug(e: LoggingError) -> Seq<char> {
    match e {
        LoggingError::InvalidLevel(m) => variant_text("InvalidLevel"@, str_debug_form(m@)),
        LoggingError::Configuration(m) => variant_text("Configuration"@, str_debug_form(m@)),
        LoggingError::WriteError(m) => variant_text("WriteError"@, str_debug_form(m@)),
        LoggingError::Initialization(m) => variant_text("Initialization"@, str_debug_form(m@)),
    }
}

/// The derived `Debug` text of a `LoggingError`.
fn logging_error_debug_text(e: &LoggingError) -> (r: String)
    ensures
        r@ == logging_error_debug(*e),
{
    match e {
        LoggingError::InvalidLevel(m) => string_variant("InvalidLevel", m),
        LoggingError::Configuration(m) => string_variant("Configuration", m),
        LoggingError::WriteError(m) => string_variant("WriteError", m),
        LoggingError::Initialization(m) => string_variant("Initialization", m),
    }
}

/// The derived `Debug` text of a `LoquatError`.
pub open spec fn loquat_error_debug(e: LoquatError) -> Seq<char> {
    match e {
        LoquatError::Config(c) => variant_text("Config"@, config_error_debug(c)),
        LoquatError::Plugin(p) => variant_text("Plugin"@, plugin_error_debug(p)),
        LoquatError::Logging(l) => variant_text("Logging"@, logging_error_debug(l)),
        LoquatError::Io(m) => variant_text("Io"@, str_debug_form(m@)),
        LoquatError::Internal(m) => variant_text("Internal"@, str_debug_form(m@)),
    }
}

/// The derived `Debug` text of a `LoquatError`.
fn loquat_error_debug_text(e: &LoquatError) -> (r: String)
    ensures
        r@ == loquat_error_debug(*e),
{
    match e {
        LoquatError::Config(c) => {
            let t = config_error_debug_text(c);
            variant("Config", t.as_str())
        },
        LoquatError::Plugin(p) => {
            let t = plugin_error_debug_text(p);
            variant("Plugin", t.as_str())
        },
        LoquatError::Logging(l) => {
            let t = logging_error_debug_text(l);
            variant("Logging", t.as_str())
        },
        LoquatError::Io(m) => string_variant("Io", m),
        LoquatError::Internal(m) => string_variant("Internal", m),
    }
}

/// The items of a derived `Debug` list: each error's text, separated by `, `.
pub open spec fn errors_items_debug(errors: Seq<LoquatError>) -> Seq<char>
    decreases errors.len(),
{
    if errors.len() == 0 {
        Seq::empty()
    } else if errors.len() == 1 {
        loquat_error_debug(errors[0])
    } else {
        errors_items_debug(errors.drop_last()) + ", "@ + loquat_error_debug(errors.last())
    }
}

/// The derived `Debug` text of a list of errors: `[` items `]`.
pub open spec fn errors_debug_text(errors: Seq<LoquatError>) -> Seq<char> {
    "["@ + errors_items_debug(errors) + "]"@
}

/// The derived `Debug` text of a list of errors.
fn errors_debug(errors: &Vec<LoquatError>) -> (r: String)
    ensures
        r@ == errors_debug_text(errors@),
{
    let mut items = String::new();
    let n = errors.len();
    let mut i: usize = 0;
    while i < n
        invariant
            n == errors@.len(),
            i <= n,
            items@ == errors_items_debug(errors@.subrange(0, i as int)),
        decreases n - i,
    {
        let t = loquat_error_debug_text(&errors[i]);
        proof {
            let s = errors@.subrange(0, i + 1);
            assert(s.drop_last() =~= errors@.subrange(0, i as int));
            assert(s.last() == errors@[i as int]);
        }
        if i > 0 {
            items.append(", ");
        }
        items.append(t.as_str());
        i = i + 1;
    }
    assert(errors@.subrange(0, n as int) =~= errors@);
    let mut r = String::from_str("[");
    r.append(items.as_str());
    r.append("]");
    r
}

/// `r` combines the failures `errors`: none is success, one is that failure,
/// several are one write error whose message is `what` followed by their
/// Debug list.
pub open spec fn combines(errors: Seq<LoquatError>, what: Seq<char>, r: Result<(), LoquatError>) -> bool {
    if errors.len() == 0 {
        r is Ok
    } else if errors.len() == 1 {
        r == Err::<(), LoquatError>(errors[0])
    } else {
        r matches Err(LoquatError::Logging(LoggingError::WriteError(m))) && m@ == what
            + errors_debug_text(errors)
    }
}

/// Combine the failures of several writers: none is success, one is that
/// failure, several become one write error whose message is `what` followed
/// by their Debug list.
pub fn combine_errors(errors: Vec<LoquatError>, what: &str) -> (r: Result<(), LoquatError>)
    ensures
        combines(errors@, what@, r),
        errors@.len() == 0 ==> r is Ok,
        errors@.len() == 1 ==> r == Err::<(), LoquatError>(errors@[0]),
        errors@.len() > 1 ==> (r matches Err(LoquatError::Logging(LoggingError::WriteError(m)))
            && m@ == what@ + errors_debug_text(errors@)),
{
    if errors.len() == 0 {
        Ok(())
    } else if errors.len() == 1 {
        let mut errors = errors;
        Err(errors.remove(0))
    } else {
        let listed = errors_debug(&errors);
        Err(LoquatError::Logging(LoggingError::WriteError(concat2(what, listed.as_str()))))
    }
}

/// The writers an output needs.
#[derive(Debug, Clone, PartialEq, Eq)]
pub enum WriterPlan {
    /// Standard output.
    Console,
    /// The file at this path.
    File(String),
    /// Standard output and the file at this path, combined.
    ConsoleAndFile(String),
}

/// The writers for `output`; custom outputs are not supported.
pub fn writer_plan(output: &LogOutput) -> (r: Result<WriterPlan, LoggingError>)
    ensures
        output is Console ==> r == Ok::<WriterPlan, LoggingError>(WriterPlan::Console),
        output matches LogOutput::File { path } ==> (r matches Ok(WriterPlan::File(p)) && p@
            == path@),
        output matches LogOutput::Both { path } ==> (r matches Ok(WriterPlan::ConsoleAndFile(p))
            && p@ == path@),
        output is Custom ==> (r matches Err(LoggingError::Configuration(m)) && m@
            == "Custom writers not yet implemented"@),
{
    match output {
        LogOutput::Console => Ok(WriterPlan::Console),
        LogOutput::File { path } => Ok(WriterPlan::File(path.clone())),
        LogOutput::Both { path } => Ok(WriterPlan::ConsoleAndFile(path.clone())),
        LogOutput::Custom(_) => Err(
            LoggingError::Configuration(String::from_str("Custom writers not yet implemented")),
        ),
    }
}

/// Several writers behind one.
#[derive(Debug)]
pub struct CombinedWriter<W> {
    writers: Vec<W>,
}

/// The failures among `results`, in order.
pub open spec fn failures(results: Seq<Result<(), LoquatError>>) -> Seq<LoquatError>
    decreases results.len(),
{
    if results.len() == 0 {
        Seq::empty()
    } else {
        match results.last() {
            Ok(_) => failures(results.drop_last()),
            Err(e) => failures(results.drop_last()).push(e),
        }
    }
}

impl<W: LogWriter> CombinedWriter<W> {
    /// The writers, in order.
    pub closed spec fn spec_writers(&self) -> Seq<W> {
        self.writers@
    }

    /// The number of writers.
    pub open spec fn spec_len(&self) -> nat {
        self.spec_writers().len()
    }

    /// The writers given, in order.
    pub fn new(writers: Vec<W>) -> (r: Self)
        ensures
            r.spec_writers() == writers@,
    {
        CombinedWriter { writers }
    }

    /// One more writer, last.
    pub fn add_writer(&mut self, writer: W)
        ensures
            final(self).spec_writers() == old(self).spec_writers().push(writer),
    {
        self.writers.push(writer);
    }

    /// The number of writers.
    pub fn len(&self) -> (r: usize)
        ensures
            r == self.spec_len(),
    {
        self.writers.len()
    }
}

impl<W: LogWriter> LogWriter for CombinedWriter<W> {
    /// Each writer, in order, wrote the text once, giving `results`, and the
    /// failures among them combine into `r`.
    open spec fn may_write(&self, formatted: Seq<char>, r: Result<(), LoquatError>) -> bool {
        exists|results: Seq<Result<(), LoquatError>>|
            #![trigger failures(results)]
            {
            &&& results.len() == self.spec_writers().len()
            &&& forall|i: int|
                0 <= i < results.len() ==> self.spec_writers()[i].may_write(
                    formatted,
                    #[trigger] results[i],
                )
            &&& combines(failures(results), "Multiple write errors: "@, r)
        }
    }

    /// Each writer, in order, was flushed once, giving `results`, and the
    /// failures among them combine into `r`.
    open spec fn may_flush(&self, r: Result<(), LoquatError>) -> bool {
        exists|results: Seq<Result<(), LoquatError>>|
            #![trigger failures(results)]
            {
            &&& results.len() == self.spec_writers().len()
            &&& forall|i: int|
                0 <= i < results.len() ==> self.spec_writers()[i].may_flush(#[trigger] results[i])
            &&& combines(failures(results), "Multiple flush errors: "@, r)
        }
    }

    /// Write to every writer, in order; the failures combine as
    /// `combine_errors` says.
    fn write(&self, formatted: &str) -> (r: Result<(), LoquatError>) {
        let mut errors: Vec<LoquatError> = Vec::new();
        let ghost mut results: Seq<Result<(), LoquatError>> = Seq::empty();
        let n = self.writers.len();
        let mut i: usize = 0;
        while i < n
            invariant
                n == self.writers@.len(),
                i <= n,
                results.len() == i,
                forall|j: int|
                    0 <= j < i ==> self.writers@[j].may_write(formatted@, #[trigger] results[j]),
                errors@ == failures(results),
            decreases n - i,
        {
            let w = self.writers[i].write(formatted);
            proof {
                let before = results;
                results = results.push(w);
                assert(results.drop_last() =~= before);
                assert forall|j: int| 0 <= j < i implies results[j] == before[j] by {}
            }
            match w {
                Ok(()) => {},
                Err(e) => errors.push(e),
            }
            i = i + 1;
        }
        let ghost errs = errors@;
        let r = combine_errors(errors, "Multiple write errors: ");
        assert(combines(failures(results), "Multiple write errors: "@, r));
        r
    }

    /// Flush every writer, in order; the failures combine as
    /// `combine_errors` says.
    fn flush(&self) -> (r: Result<(), LoquatError>) {
        let mut errors: Vec<LoquatError> = Vec::new();
        let ghost mut results: Seq<Result<(), LoquatError>> = Seq::empty();
        let n = self.writers.len();
        let mut i: usize = 0;
        while i < n
            invariant
                n == self.writers@.len(),
                i <= n,
                results.len() == i,
                forall|j: int| 0 <= j < i ==> self.writers@[j].may_flush(#[trigger] results[j]),
                errors@ == failures(results),
            decreases n - i,
        {
            let w = self.writers[i].flush();
            proof {
                let before = results;
                results = results.push(w);
                assert(results.drop_last() =~= before);
                assert forall|j: int| 0 <= j < i implies results[j] == before[j] by {}
            }
            match w {
                Ok(()) => {},
                Err(e) => errors.push(e),
            }
            i = i + 1;
        }
        let ghost errs = errors@;
        let r = combine_errors(errors, "Multiple flush errors: ");
        assert(combines(failures(results), "Multiple flush errors: "@, r));
        r
    }
}

} // verus!
