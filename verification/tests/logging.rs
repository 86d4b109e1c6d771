use std::cell::RefCell;

use loquat::errors::{LoggingError, LoquatError, PluginError as PluginErrorKind};
use loquat::json::JsonMap;
use loquat::logging::formatters::json::{EnhancedJsonFormatter, JsonFormatter};
use loquat::logging::formatters::{create_formatter, AnyFormatter};
use loquat::logging::formatters::text::{ColoredTextFormatter, TextFormatType, TextFormatter};
use loquat::logging::logger::{Logger, StructuredLogger};
use loquat::logging::traits::{
    LogContext, LogEntry, LogFormat, LogFormatter, LogLevel, LogOutput, LogWriter, LoggerConfig,
    RequestInfo,
};
use loquat::logging::writers::console::{
    add_timestamp, extract_level_from_message, should_use_stderr, TimestampFormat,
};
use loquat::logging::writers::file::{
    needs_rotation, size_after_line, FileRotationConfig, Rotation, RotationAction,
};
use loquat::logging::writers::{combine_errors, writer_plan, CombinedWriter, WriterPlan};
use loquat::time::Timestamp;

struct MemWriter {
    lines: RefCell<Vec<String>>,
    fail: bool,
}

impl MemWriter {
    fn new() -> Self {
        MemWriter { lines: RefCell::new(Vec::new()), fail: false }
    }

    fn failing() -> Self {
        MemWriter { lines: RefCell::new(Vec::new()), fail: true }
    }
}

impl LogWriter for MemWriter {
    fn write(&self, formatted: &str) -> Result<(), LoquatError> {
        if self.fail {
            return Err(LoquatError::Logging(LoggingError::WriteError("disk full".to_string())));
        }
        self.lines.borrow_mut().push(formatted.to_string());
        Ok(())
    }

    fn flush(&self) -> Result<(), LoquatError> {
        Ok(())
    }
}

fn parse(s: &str) -> serde_json::Value {
    serde_json::from_str(s).unwrap()
}

#[test]
fn level_names_and_order() {
    assert_eq!(LogLevel::Info.as_str(), "INFO");
    assert_eq!(LogLevel::from_str("info").unwrap(), LogLevel::Info);
    assert_eq!(LogLevel::from_str("Warn").unwrap(), LogLevel::Warn);
    assert_eq!(
        LogLevel::from_str("verbose"),
        Err(LoquatError::Logging(LoggingError::InvalidLevel("verbose".to_string())))
    );
    for l in [LogLevel::Trace, LogLevel::Debug, LogLevel::Info, LogLevel::Warn, LogLevel::Error] {
        assert_eq!(LogLevel::from_str(l.as_str()).unwrap(), l);
    }
    assert!(LogLevel::Error.should_log(LogLevel::Warn));
    assert!(LogLevel::Warn.should_log(LogLevel::Warn));
    assert!(!LogLevel::Debug.should_log(LogLevel::Info));
}

#[test]
fn logger_config_default_values() {
    let c = LoggerConfig::default();
    assert_eq!(c.level, LogLevel::Info);
    assert!(matches!(c.format, LogFormat::Json));
    assert!(matches!(c.output, LogOutput::Console));
    assert!(c.enable_async);
    assert_eq!(c.buffer_size, Some(1000));
    assert_eq!(c.max_file_size, Some(10 * 1024 * 1024));
    assert_eq!(c.max_files, Some(5));
}

#[test]
fn test_json_formatter_basic() {
    let formatter = JsonFormatter::new();
    let context = LogContext::new().with_component("test");
    let entry = LogEntry::new(LogLevel::Info, "Test message".to_string(), context);
    let formatted = formatter.format(&entry);
    let parsed = parse(&formatted);
    assert_eq!(parsed["message"], "Test message");
    assert_eq!(parsed["level"], "INFO");
    assert_eq!(parsed["component"], "test");
}

#[test]
fn test_json_formatter_with_request_info() {
    let formatter = JsonFormatter::new();
    let _request_info = RequestInfo::new("GET", "/api/test");
    let context = LogContext::new()
        .with_component("api")
        .with_correlation_id_set("req-123");
    let entry = LogEntry::new(LogLevel::Info, "Request processed".to_string(), context);
    let formatted = formatter.format(&entry);
    let parsed = parse(&formatted);
    assert_eq!(parsed["correlation_id"], "req-123");
    assert_eq!(parsed["component"], "api");
}

trait WithCid {
    fn with_correlation_id_set(self, id: &str) -> Self;
}

impl WithCid for LogContext {
    fn with_correlation_id_set(mut self, id: &str) -> Self {
        self.correlation_id = Some(id.to_string());
        self
    }
}

#[test]
fn json_entries_carry_request_metadata_and_location() {
    let mut context = LogContext::new();
    context.request_info = Some(RequestInfo::new("GET", "/x"));
    context.add("attempt", "3");
    let entry = LogEntry::new(LogLevel::Warn, "m".to_string(), context).with_location("mod", "f.rs", 7);
    let parsed = parse(&JsonFormatter::new().format(&entry));
    assert_eq!(parsed["request"]["method"], "GET");
    assert_eq!(parsed["request"]["path"], "/x");
    assert_eq!(parsed["request"]["user_agent"], "");
    assert_eq!(parsed["metadata"]["attempt"], 3);
    assert_eq!(parsed["module"], "mod");
    assert_eq!(parsed["file"], "f.rs");
    assert_eq!(parsed["line"], 7);
    let compact = parse(&JsonFormatter::compact().format(&entry));
    assert!(compact.get("metadata").is_none());
    let pretty = JsonFormatter::pretty().format(&entry);
    assert!(pretty.contains('\n'));
    assert_eq!(parse(&pretty)["level"], "WARN");
}

#[test]
fn test_enhanced_json_formatter() {
    let formatter = EnhancedJsonFormatter::new();
    let entry = LogEntry::new(LogLevel::Error, "Error occurred".to_string(), LogContext::new());
    let parsed = parse(&formatter.format(&entry));
    assert!(parsed.get("performance").is_some());
    assert!(parsed.get("error").is_some());
    assert_eq!(parsed["error"]["severity"], "high");
    assert_eq!(parsed["performance"]["level_priority"], 4);
    assert_eq!(parsed["performance"]["timestamp_ms"], entry.timestamp.timestamp_millis());
    let info = LogEntry::new(LogLevel::Info, "fine".to_string(), LogContext::new());
    assert!(parse(&formatter.format(&info)).get("error").is_none());
    let plain = EnhancedJsonFormatter::new().with_performance_metrics(false);
    assert!(parse(&plain.format(&info)).get("performance").is_none());
}

#[test]
fn test_text_formatter_simple() {
    let formatter = TextFormatter::simple();
    let entry = LogEntry::new(LogLevel::Info, "Test message".to_string(), LogContext::new());
    assert_eq!(formatter.format(&entry), "[INFO] Test message");
}

#[test]
fn test_text_formatter_detailed() {
    let formatter = TextFormatter::detailed();
    let context = LogContext::new().with_component("test");
    let entry = LogEntry::new(LogLevel::Info, "Test message".to_string(), context);
    let formatted = formatter.format(&entry);
    assert!(formatted.contains("INFO"));
    assert!(formatted.contains("[test]"));
    assert!(formatted.contains("Test message"));
}

#[test]
fn test_text_formatter_with_correlation_id() {
    let formatter = TextFormatter::full();
    let context = LogContext::new().with_component("api").with_correlation_id_set("req-123");
    let entry = LogEntry::new(LogLevel::Info, "Request processed".to_string(), context);
    let formatted = formatter.format(&entry);
    assert!(formatted.contains("cid:req-123"));
    assert!(formatted.contains("[api]"));
}

#[test]
fn text_layouts_exactly() {
    let ts = Timestamp::from_parts(0, 5_000_000).unwrap();
    let context = LogContext::new().with_component("api").with_metadata("k", "1");
    let entry = LogEntry::at(ts, LogLevel::Warn, "hello".to_string(), context);
    assert_eq!(TextFormatter::compact().format(&entry), "00:00:00.005 WARN  hello");
    assert_eq!(
        TextFormatter::detailed().format(&entry),
        "1970-01-01 00:00:00.005 [\x1b[33mWARN\x1b[0m] [api]  hello"
    );
    assert_eq!(
        TextFormatter::full().format(&entry),
        "1970-01-01T00:00:00.005Z [\x1b[33mWARN\x1b[0m] [api]  hello | k=1"
    );
    let no_level = TextFormatter::simple().with_level(false).with_format(TextFormatType::Simple);
    assert_eq!(no_level.format(&entry), "hello");
}

#[test]
fn batch_formats_each_entry_in_order() {
    let ts = Timestamp::from_parts(0, 5_000_000).unwrap();
    let first = LogEntry::at(ts.clone(), LogLevel::Warn, "hello".to_string(), LogContext::new());
    let second = LogEntry::at(ts, LogLevel::Error, "bye".to_string(), LogContext::new());
    let lines = TextFormatter::compact().format_batch(&[first, second]);
    assert_eq!(lines, vec!["00:00:00.005 WARN  hello".to_string(), "00:00:00.005 ERROR  bye".to_string()]);
}

#[test]
fn test_colored_text_formatter() {
    let formatter = ColoredTextFormatter::new();
    let entry = LogEntry::new(LogLevel::Error, "Error message".to_string(), LogContext::new());
    let formatted = formatter.format(&entry);
    assert!(formatted.contains("Error message"));
    let on_tty = formatter.format_for_terminal(&entry, true);
    assert!(on_tty.starts_with("\x1b[31m"));
    assert!(on_tty.ends_with("\x1b[0m"));
    let off = ColoredTextFormatter::new().without_colors().format_for_terminal(&entry, true);
    assert!(!off.starts_with("\x1b[31m"));
}

#[test]
fn test_structured_logger_creation() {
    let logger = StructuredLogger::new(JsonFormatter::new(), MemWriter::new());
    assert_eq!(logger.current_level(), LogLevel::Info);
}

#[test]
fn test_logger_level_management() {
    let mut logger = StructuredLogger::new(JsonFormatter::new(), MemWriter::new());
    logger.set_level(LogLevel::Debug);
    assert_eq!(logger.current_level(), LogLevel::Debug);
    assert!(logger.is_level_enabled(LogLevel::Debug));
    assert!(!logger.is_level_enabled(LogLevel::Trace));
}

#[test]
fn test_log_with_location() {
    let mut logger = StructuredLogger::new(JsonFormatter::new(), MemWriter::new());
    logger.initialize();
    let result = logger.log_with_location(
        LogLevel::Info,
        "Test message",
        &LogContext::new(),
        "test_module",
        "test_file.rs",
        42,
    );
    assert!(result.is_ok());
}

#[test]
fn test_batch_logging() {
    let mut logger = StructuredLogger::new(TextFormatter::simple(), MemWriter::new());
    logger.initialize();
    let entries = vec![
        LogEntry::new(LogLevel::Info, "Message 1".to_string(), LogContext::new()),
        LogEntry::new(LogLevel::Debug, "Message 2".to_string(), LogContext::new()),
    ];
    assert!(logger.log_batch(&entries).is_ok());
}

#[test]
fn uninitialized_loggers_refuse() {
    let logger = StructuredLogger::new(TextFormatter::simple(), MemWriter::new());
    assert_eq!(
        logger.log(LogLevel::Error, "x", &LogContext::new()),
        Err(LoquatError::Logging(LoggingError::Initialization(
            "Logger not initialized. Call init() or initialize() first.".to_string()
        )))
    );
}

#[test]
fn entries_below_the_level_are_not_written() {
    let mut logger = StructuredLogger::new(TextFormatter::simple(), MemWriter::failing());
    logger.initialize();
    logger.set_level(LogLevel::Warn);
    assert!(logger.log(LogLevel::Info, "quiet", &LogContext::new()).is_ok());
    assert!(logger.log(LogLevel::Error, "loud", &LogContext::new()).is_err());
}

#[test]
fn test_auto_routing_console_writer() {
    let error_msg = r#"{"timestamp":"2023-01-01T00:00:00Z","level":"ERROR","message":"Test error"}"#;
    assert!(should_use_stderr(error_msg));
    let info_msg = r#"{"timestamp":"2023-01-01T00:00:00Z","level":"INFO","message":"Test info"}"#;
    assert!(!should_use_stderr(info_msg));
    assert!(should_use_stderr("[ERROR] Test error message"));
    assert!(!should_use_stderr("[INFO] Test info message"));
    assert_eq!(extract_level_from_message("no level here"), LogLevel::Info);
    assert_eq!(extract_level_from_message("[TRACE] [WARN]"), LogLevel::Warn);
}

#[test]
fn test_enhanced_console_writer() {
    let now = Timestamp::now();
    let message = "Test message";
    let enhanced = add_timestamp(TimestampFormat::Medium, &now, message);
    assert!(enhanced.len() > message.len());
    assert!(enhanced.contains(message));
}

#[test]
fn test_timestamp_formats() {
    let ts = Timestamp::from_parts(3661, 0).unwrap();
    assert_eq!(add_timestamp(TimestampFormat::Short, &ts, "Test"), "01:01:01 Test");
    assert_eq!(add_timestamp(TimestampFormat::Medium, &ts, "Test"), "1970-01-01 01:01:01 Test");
    assert_eq!(add_timestamp(TimestampFormat::Unstamped, &ts, "Test"), "Test");
    assert!(add_timestamp(TimestampFormat::Full, &ts, "Test").starts_with("1970-01-01T01:01:01"));
}

#[test]
fn test_rotation_config_default() {
    let config = FileRotationConfig::default();
    assert_eq!(config.max_file_size, 10 * 1024 * 1024);
    assert_eq!(config.max_files, 5);
    assert!(!config.compress);
}

#[test]
fn rotation_is_due_at_the_size_limit() {
    let c = Some(FileRotationConfig { max_file_size: 10, max_files: 2, compress: false });
    assert!(!needs_rotation(&c, 9));
    assert!(needs_rotation(&c, 10));
    assert!(!needs_rotation(&None, u64::MAX));
    assert_eq!(size_after_line(10, 4), 15);
}

#[test]
fn combined_writer_failures() {
    assert!(combine_errors(vec![], "Multiple write errors: ").is_ok());
    let one = LoquatError::Io("x".to_string());
    assert_eq!(combine_errors(vec![one.clone()], "Multiple write errors: "), Err(one));
    match combine_errors(
        vec![LoquatError::Io("a".to_string()), LoquatError::Io("b".to_string())],
        "Multiple write errors: ",
    ) {
        Err(LoquatError::Logging(LoggingError::WriteError(m))) => {
            assert_eq!(m, "Multiple write errors: [Io(\"a\"), Io(\"b\")]")
        }
        _ => panic!("expected a write error"),
    }
    let mut combined = CombinedWriter::new(vec![MemWriter::new()]);
    combined.add_writer(MemWriter::new());
    assert_eq!(combined.len(), 2);
    assert!(combined.write("x").is_ok());
    let failing = CombinedWriter::new(vec![MemWriter::failing(), MemWriter::new()]);
    assert_eq!(
        failing.write("x"),
        Err(LoquatError::Logging(LoggingError::WriteError("disk full".to_string())))
    );
}

#[test]
fn writer_plans() {
    assert_eq!(writer_plan(&LogOutput::Console), Ok(WriterPlan::Console));
    assert_eq!(
        writer_plan(&LogOutput::Both { path: "a.log".to_string() }),
        Ok(WriterPlan::ConsoleAndFile("a.log".to_string()))
    );
    assert_eq!(
        writer_plan(&LogOutput::Custom("x".to_string())),
        Err(LoggingError::Configuration("Custom writers not yet implemented".to_string()))
    );
}

#[test]
fn json_maps_keep_insertion_order_and_distinct_keys() {
    let mut m = JsonMap::new();
    m.set("a", "1");
    m.set("b", "2");
    m.set("a", "3");
    assert_eq!(m.len(), 2);
    assert_eq!(m.get("a"), Some("3"));
    assert_eq!(m.entry(1).key, "b");
}

fn rotate_in(files: &mut std::collections::BTreeSet<String>, path: &str, max_files: usize) -> Vec<String> {
    let config = Some(FileRotationConfig { max_file_size: 1, max_files, compress: false });
    let mut rotation = Rotation::start(path, &config).unwrap();
    let mut log = Vec::new();
    loop {
        match rotation.current_action() {
            RotationAction::CheckExists(p) => {
                let exists = files.contains(&p);
                match rotation.answer(exists) {
                    Some(RotationAction::Rename { from, to }) => {
                        files.remove(&from);
                        files.insert(to.clone());
                        log.push(format!("mv {} {}", from, to));
                    }
                    Some(RotationAction::Remove(f)) => {
                        files.remove(&f);
                        log.push(format!("rm {}", f));
                    }
                    _ => {}
                }
            }
            RotationAction::Reopen => {
                files.insert(path.to_string());
                log.push("reopen".to_string());
                let _ = rotation.answer(true);
            }
            _ => return log,
        }
    }
}

#[test]
fn rotation_moves_the_log_to_the_first_free_backup_then_shifts() {
    let mut files: std::collections::BTreeSet<String> = ["logs/app.log".to_string()].into_iter().collect();
    let log = rotate_in(&mut files, "logs/app.log", 3);
    assert_eq!(
        log,
        vec!["mv logs/app.log logs/app.log.1", "mv logs/app.log.1 logs/app.log.2", "reopen"]
    );
    assert!(files.contains("logs/app.log.2"));
    assert!(files.contains("logs/app.log"));
    assert_eq!(files.len(), 2);
}

#[test]
fn rotation_shifts_and_prunes_backups() {
    let mut files: std::collections::BTreeSet<String> = [
        "app.log", "app.log.1", "app.log.2", "app.log.4",
    ]
    .iter()
    .map(|s| s.to_string())
    .collect();
    let log = rotate_in(&mut files, "app.log", 2);
    assert_eq!(
        log,
        vec!["mv app.log app.log.2", "mv app.log.1 app.log.2", "rm app.log.4", "reopen"]
    );
}

#[test]
fn rotation_needs_a_configuration() {
    match Rotation::start("app.log", &None) {
        Err(LoquatError::Logging(LoggingError::Configuration(m))) => {
            assert_eq!(m, "Rotation not configured")
        }
        _ => panic!("expected a configuration error"),
    }
}

#[test]
fn formatter_names_choose_formatters() {
    use_create_formatter();
}

fn use_create_formatter() {
    let entry = LogEntry::new(LogLevel::Info, "m".to_string(), LogContext::new());
    match create_formatter("TEXT") {
        AnyFormatter::Text(_) => {}
        _ => panic!("expected the text formatter"),
    }
    match create_formatter("Compact") {
        AnyFormatter::Text(f) => assert!(f.format(&entry).contains("INFO  m")),
        _ => panic!("expected the compact formatter"),
    }
    match create_formatter("xml") {
        AnyFormatter::Json(_) => {}
        _ => panic!("expected the JSON formatter"),
    }
    assert_eq!(parse(&create_formatter("json").format(&entry))["message"], "m");
}

#[test]
fn empty_writers_never_fail() {
    let none: CombinedWriter<MemWriter> = CombinedWriter::new(Vec::new());
    assert!(none.write("x").is_ok());
    assert!(none.flush().is_ok());
    let failing = MemWriter::failing();
    assert!(failing.write_batch(&[]).is_ok());
    assert!(failing.write_batch(&["x".to_string()]).is_err());
}

#[test]
fn nested_errors_are_listed_as_debug_shows_them() {
    let errors = vec![
        LoquatError::Plugin(PluginErrorKind::NotFound("p".to_string())),
        LoquatError::Logging(LoggingError::WriteError("w\"q".to_string())),
    ];
    let expected = format!("Multiple write errors: {:?}", errors);
    match combine_errors(errors, "Multiple write errors: ") {
        Err(LoquatError::Logging(LoggingError::WriteError(m))) => assert_eq!(m, expected),
        _ => panic!("expected a write error"),
    }
}

#[test]
fn pretty_turned_off_renders_as_default() {
    let ts = Timestamp::from_parts(0, 0).unwrap();
    let entry = LogEntry::at(ts, LogLevel::Info, "hi".to_string(), LogContext::new());
    assert_eq!(
        JsonFormatter::pretty().with_pretty_print(false).format(&entry),
        JsonFormatter::new().format(&entry)
    );
}

#[test]
fn json_strings_are_escaped_as_serde_json_writes_them() {
    let ts = Timestamp::from_parts(0, 0).unwrap();
    let entry = LogEntry::at(ts, LogLevel::Info, "a\"b\\c\n\u{1}é".to_string(), LogContext::new());
    let text = JsonFormatter::new().format(&entry);
    assert!(text.contains("\"message\":\"a\\\"b\\\\c\\n\\u0001é\""));
}

fn through_trait<L: Logger>(logger: &mut L) {
    assert!(Logger::init(logger).is_ok());
    Logger::set_level(logger, LogLevel::Warn);
    assert_eq!(Logger::get_level(logger), LogLevel::Warn);
    assert!(Logger::is_enabled(logger, LogLevel::Error));
    assert!(!Logger::is_enabled(logger, LogLevel::Info));
    logger.info("hidden");
    Logger::log(logger, LogLevel::Error, "shown", &LogContext::new());
}

#[test]
fn logger_trait_logs_through_the_structured_logger() {
    let mut logger = StructuredLogger::new(TextFormatter::simple(), MemWriter::new());
    through_trait(&mut logger);
    assert!(Logger::flush(&logger).is_ok());
}
