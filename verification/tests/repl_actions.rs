use loquat::plugins::types::{
    PluginInfo, PluginLoadResult, PluginMetadata, PluginStatus, PluginType,
};
use loquat::repl::actions::{
    after_command, follow_step, format_duration, log_line_style, logs_action, parse_usize,
    plugin_status_lines, LogsAction,
    plugins_action, reload_summary, repl_step, tail_start, CommandOutcome, FollowAction,
    LineStyle, PluginsAction, ReplAction, ReplEvent,
};

fn strings(v: &[&str]) -> Vec<String> {
    v.iter().map(|s| s.to_string()).collect()
}

fn info(name: &str, status: PluginStatus) -> PluginInfo {
    let metadata = PluginMetadata::new(
        name.to_string(),
        "1.0".to_string(),
        PluginType::Native,
        format!("{}.so", name),
    );
    let mut i = PluginInfo::new(metadata);
    i.status = status;
    i
}

#[test]
fn durations() {
    assert_eq!(format_duration(0), "0s");
    assert_eq!(format_duration(59), "59s");
    assert_eq!(format_duration(61), "1m 1s");
    assert_eq!(format_duration(3600), "1h 0m 0s");
    assert_eq!(format_duration(90061), "1d 1h 1m 1s");
}

#[test]
fn tails_and_styles() {
    assert_eq!(tail_start(10, 3), 7);
    assert_eq!(tail_start(2, 5), 0);
    assert_eq!(log_line_style("a [WARN] b [ERROR]"), LineStyle::Red);
    assert_eq!(log_line_style("[WARN] x"), LineStyle::Yellow);
    assert_eq!(log_line_style("[INFO] [DEBUG]"), LineStyle::Plain);
    assert_eq!(log_line_style("[TRACE] x"), LineStyle::Dimmed);
    assert_eq!(log_line_style("nothing"), LineStyle::Plain);
}

#[test]
fn following() {
    assert_eq!(follow_step(10, 5, 20, 5), (10, 5, FollowAction::Nothing));
    assert_eq!(follow_step(10, 5, 20, 6), (20, 6, FollowAction::ReadFrom(10)));
    assert_eq!(follow_step(10, 5, 3, 6), (3, 6, FollowAction::Truncated));
    assert_eq!(follow_step(10, 5, 10, 6), (10, 6, FollowAction::Nothing));
}

#[test]
fn plugins_arguments() {
    assert_eq!(plugins_action(&vec![]), PluginsAction::List(None));
    assert_eq!(plugins_action(&strings(&["ls", "x"])), PluginsAction::List(Some("x".to_string())));
    assert_eq!(
        plugins_action(&strings(&["info"])),
        PluginsAction::MissingName("Usage: plugins info <name>".to_string())
    );
    assert_eq!(plugins_action(&strings(&["load", "a"])), PluginsAction::Load("a".to_string()));
    assert_eq!(plugins_action(&strings(&["reload", "a"])), PluginsAction::Reload("a".to_string()));
    assert_eq!(plugins_action(&strings(&["foo"])), PluginsAction::List(Some("foo".to_string())));
}

#[test]
fn console_steps() {
    assert_eq!(repl_step(ReplEvent::Interrupted), ReplAction::Continue);
    assert_eq!(repl_step(ReplEvent::Eof), ReplAction::Exit);
    assert_eq!(
        repl_step(ReplEvent::ReadError("bad".to_string())),
        ReplAction::ReportReadError("Error reading input: bad".to_string())
    );
    assert_eq!(repl_step(ReplEvent::Line("   ".to_string())), ReplAction::Skip);
    assert_eq!(
        repl_step(ReplEvent::Line(" plugins  list x ".to_string())),
        ReplAction::Run { name: "plugins".to_string(), args: strings(&["list", "x"]) }
    );
    assert_eq!(after_command(None), CommandOutcome::Done);
    assert_eq!(after_command(Some("Internal error: Exit REPL")), CommandOutcome::Exit);
    assert_eq!(after_command(Some("Unknown command")), CommandOutcome::ShowError);
}

#[test]
fn reload_summaries() {
    let results = vec![
        PluginLoadResult::success("a".to_string()),
        PluginLoadResult::failure("b".to_string(), "x".to_string()),
    ];
    let s = reload_summary(Some(Ok(results)), Some(Ok((2, 0))));
    assert_eq!(s.plugins_reloaded, 1);
    assert_eq!(s.adapters_reloaded, 2);
    assert_eq!(s.errors, strings(&["  ✗ 1 plugins failed to reload"]));
    assert_eq!(s.successes, strings(&["  ✓ 1 plugins reloaded", "  ✓ 2 adapters reloaded"]));
    assert_eq!(s.summary, "⚠ Reload completed with 1 error(s)");
    let ok = reload_summary(None, Some(Ok((3, 0))));
    assert!(ok.errors.is_empty());
    assert_eq!(ok.summary, "✓ Reload completed successfully: 0 plugins, 3 adapters");
    let failed = reload_summary(Some(Err("io".to_string())), Some(Err("down".to_string())));
    assert_eq!(
        failed.errors,
        strings(&["  ✗ Failed to reload plugins: io", "  ✗ Failed to reload adapters: down"])
    );
}

#[test]
fn status_of_plugins() {
    let infos = vec![
        info("a", PluginStatus::Loaded),
        info("b", PluginStatus::Error { message: "boom".to_string() }),
        info("c", PluginStatus::Unloaded),
        info("d", PluginStatus::Loaded),
        info("e", PluginStatus::Disabled),
        info("f", PluginStatus::Loading),
        info("g", PluginStatus::Loaded),
    ];
    colored::control::set_override(false);
    let lines = plugin_status_lines(&infos);
    assert_eq!(lines[0], "  Plugins:     7 loaded");
    assert_eq!(lines[1], "    ├─ Active:  3");
    assert_eq!(lines[2], "    ├─ Errors:  1");
    assert_eq!(lines[3], "    └─ Latest:");
    assert_eq!(lines[4], "       ✓ a (v1.0) - Loaded");
    assert_eq!(lines[5], "       ✗ b (v1.0) - Error { message: \"boom\" }");
    assert_eq!(lines[6], "       ○ c (v1.0) - Unloaded");
    assert_eq!(lines.len(), 10);
    assert_eq!(lines[9], "       ... and 2 more");
    assert_eq!(plugin_status_lines(&vec![]).len(), 3);
}

#[test]
fn status_of_plugins_in_color() {
    colored::control::set_override(true);
    let infos = vec![
        info("a", PluginStatus::Loaded),
        info("b", PluginStatus::Error { message: "boom".to_string() }),
        info("c", PluginStatus::Unloaded),
    ];
    let lines = plugin_status_lines(&infos);
    assert_eq!(lines[0], "  Plugins:     \x1b[36m3 loaded\x1b[0m");
    assert_eq!(lines[1], "    ├─ Active:  \x1b[32m1\x1b[0m");
    assert_eq!(lines[2], "    ├─ Errors:  \x1b[31m1\x1b[0m");
    assert_eq!(lines[4], "       \x1b[32m✓\x1b[0m a (v1.0) - Loaded");
    assert_eq!(lines[5], "       \x1b[31m✗\x1b[0m b (v1.0) - Error { message: \"boom\" }");
    assert_eq!(lines[6], "       \x1b[33m○\x1b[0m c (v1.0) - Unloaded");
    let none = plugin_status_lines(&vec![info("a", PluginStatus::Loaded)]);
    assert_eq!(none[2], "    ├─ Errors:  \x1b[32m0\x1b[0m");
}

#[test]
fn usize_parsing_matches_std() {
    for t in ["0", "42", "+7", "", "+", "-1", "1a", "007", "18446744073709551615", "18446744073709551616", "99999999999999999999x"] {
        assert_eq!(parse_usize(t), t.parse::<usize>().ok(), "{}", t);
    }
}

#[test]
fn logs_arguments() {
    assert_eq!(logs_action(&vec![]), LogsAction::Show(50));
    assert_eq!(logs_action(&strings(&["100"])), LogsAction::Show(100));
    assert_eq!(logs_action(&strings(&["follow"])), LogsAction::Follow(50));
    assert_eq!(logs_action(&strings(&["f", "20"])), LogsAction::Follow(20));
    assert_eq!(logs_action(&strings(&["f", "x"])), LogsAction::Follow(50));
    assert_eq!(logs_action(&strings(&["c"])), LogsAction::Clear);
    assert_eq!(logs_action(&strings(&["what"])), LogsAction::Unknown("what".to_string()));
}

#[test]
fn words_split_as_std_splits_them() {
    for t in ["", "   ", " a  b\tc\n", "x\u{3000}y\u{85}z", "one"] {
        let expected: Vec<String> = t.split_whitespace().map(|w| w.to_string()).collect();
        match repl_step(ReplEvent::Line(t.to_string())) {
            ReplAction::Skip => assert!(expected.is_empty()),
            ReplAction::Run { name, args } => {
                assert_eq!(name, expected[0]);
                assert_eq!(args, expected[1..].to_vec());
            }
            other => panic!("unexpected {:?}", other),
        }
    }
}
