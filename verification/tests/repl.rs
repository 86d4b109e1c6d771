use loquat::cli::{parse_args, Command as CliCommand};
use loquat::repl::commands::{
    Command, CommandRegistry, EngineCommand, ExitCommand, HelpCommand, PluginsCommand,
    ReloadCommand, ReplCommand, ReplContext, StatusCommand,
};
use loquat::repl::engine::{check_for_errors, generate_prompt, ReplEngine, ReplEngineConfig};
use loquat::plugins::types::{PluginInfo, PluginMetadata, PluginStatus, PluginType};

fn args(v: &[&str]) -> Vec<String> {
    v.iter().map(|s| s.to_string()).collect()
}

#[test]
fn test_repl_config_default() {
    let config = ReplEngineConfig::default();
    assert_eq!(config.history_max_size, 1000);
    assert!(config.enable_completion);
    assert!(config.enable_color);
    assert_eq!(config.history_path, Some(".repl_history".to_string()));
}

#[test]
fn default_commands_are_registered_in_order() {
    let mut engine = ReplEngine::new();
    engine.register_default_commands();
    let names = engine.registry.all_names();
    assert_eq!(&names[0..3], &["help", "h", "?"]);
    assert!(names.contains(&"quit".to_string()));
    assert_eq!(names.last().unwrap(), "q");
    assert_eq!(engine.registry.find("q").unwrap().name(), "exit");
    assert_eq!(engine.registry.find("info").unwrap().name(), "status");
    assert!(engine.registry.find("nope").is_none());
}

#[test]
fn completion_of_command_names() {
    let mut engine = ReplEngine::new();
    engine.register_default_commands();
    let ctx = ReplContext::new(true, true);
    assert_eq!(engine.registry.complete("", &ctx).len(), 10);
    assert_eq!(engine.registry.complete("  e", &ctx), vec!["engine", "exit"]);
    assert_eq!(engine.registry.complete("engine st", &ctx), vec!["engine start", "engine stop", "engine status"]);
    assert_eq!(engine.registry.complete("pl l", &ctx), vec!["pl list", "pl ls", "pl load"]);
    assert!(engine.registry.complete("pl l", &ReplContext::new(false, true)).is_empty());
    assert!(engine.registry.complete("nothing here", &ctx).is_empty());
}

#[test]
fn command_completions() {
    let ctx = ReplContext::new(true, false);
    assert_eq!(ReloadCommand.complete(&args(&["p"]), &ctx), vec!["plugins"]);
    assert_eq!(ReloadCommand.complete(&args(&[]), &ctx).len(), 4);
    assert!(ReloadCommand.complete(&args(&["all", "x"]), &ctx).is_empty());
    assert_eq!(EngineCommand.complete(&args(&["re"]), &ctx), vec!["restart"]);
    assert_eq!(PluginsCommand.complete(&args(&[]), &ctx).len(), 6);
    assert!(StatusCommand.complete(&args(&[]), &ctx).is_empty());
    let help = HelpCommand::new(args(&["help"]));
    assert_eq!(help.complete(&args(&["c"]), &ctx), vec!["config", "clear"]);
}

#[test]
fn command_texts() {
    assert_eq!(ExitCommand.aliases(), vec!["quit", "q"]);
    assert_eq!(ExitCommand.usage(), "exit");
    let help = ReplCommand::Exit(ExitCommand).help();
    assert!(help.starts_with("Usage: exit\n\nDescription: Exit REPL\n\nExit the REPL"));
}

#[test]
fn prompts() {
    let ok = generate_prompt("dev", false);
    assert!(ok == "loquat[dev]> " || ok == "loquat[\x1b[92mdev\x1b[0m]> ");
    let bad = generate_prompt("prod", true);
    assert!(bad == "loquat[prod|!]> " || bad == "loquat[prod|\x1b[31m!\x1b[0m]> ");
    let meta = PluginMetadata::new("p".to_string(), "1".to_string(), PluginType::Native, "p.so".to_string());
    let infos = vec![PluginInfo::new(meta).with_status(PluginStatus::Error { message: "x".to_string() })];
    assert!(check_for_errors(&infos));
    assert!(!check_for_errors(&vec![]));
}

#[test]
fn run_arguments() {
    assert_eq!(
        parse_args(&args(&["loquat"])),
        CliCommand::Run { environment: "dev".to_string(), rebuild: false, repl: false }
    );
    assert_eq!(
        parse_args(&args(&["loquat", "--env", "prod", "--rebuild"])),
        CliCommand::Run { environment: "prod".to_string(), rebuild: true, repl: false }
    );
    assert_eq!(
        parse_args(&args(&["loquat", "staging", "--repl"])),
        CliCommand::Run { environment: "staging".to_string(), rebuild: false, repl: true }
    );
    assert_eq!(
        parse_args(&args(&["loquat", "--repl", "staging"])),
        CliCommand::Run { environment: "dev".to_string(), rebuild: false, repl: true }
    );
    assert_eq!(
        parse_args(&args(&["loquat", "--env"])),
        CliCommand::Run { environment: "dev".to_string(), rebuild: false, repl: false }
    );
}

#[test]
fn plugin_arguments() {
    assert_eq!(
        parse_args(&args(&["loquat", "plugin", "create", "--name", "x"])),
        CliCommand::PluginCreate { args: args(&["create", "--name", "x"]) }
    );
    assert_eq!(parse_args(&args(&["loquat", "plugin"])), CliCommand::PluginInteractive);
    assert_eq!(parse_args(&args(&["loquat", "plugin", "list"])), CliCommand::PluginInteractive);
}

#[test]
fn status_help_text() {
    let help = StatusCommand.help();
    assert_eq!(
        help,
        "Usage: status\n\nDescription: Display system status\n\nDisplay the current status of the Loquat framework including:\n- Engine state\n- Uptime\n- Environment\n- Plugin status\n- Adapter status\n\nExample:\n  status\n"
    );
    assert_eq!(ReplCommand::Status(StatusCommand).help(), help);
}

#[test]
fn prompt_with_reset_inside_environment() {
    colored::control::set_override(true);
    assert_eq!(
        generate_prompt("a\x1b[0mb", false),
        "loquat[\x1b[92ma\x1b[0m\x1b[92mb\x1b[0m]> "
    );
    assert_eq!(generate_prompt("p", true), "loquat[p|\x1b[31m!\x1b[0m]> ");
    colored::control::set_override(false);
    assert_eq!(generate_prompt("a\x1b[0mb", false), "loquat[a\x1b[0mb]> ");
}
