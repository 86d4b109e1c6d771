//! The REPL's configuration, its default commands, and its prompt.

use vstd::prelude::*;
use crate::plugins::types::PluginInfo;
use crate::repl::commands::{
    AdaptersCommand, ClearCommand, CommandRegistry, ConfigCommand, EngineCommand, ExitCommand,
    HelpCommand, LogsCommand, PluginsCommand, ReloadCommand, ReplCommand, StatusCommand,
};
use crate::text::opt_view;
use crate::paint::{paint_bright_green, paint_red, painted};

verus! {

/// The REPL's settings.
#[derive(Debug, Clone)]
pub struct ReplEngineConfig {
    pub history_path: Option<String>,
    pub history_max_size: usize,
    pub enable_completion: bool,
    pub enable_color: bool,
}

impl Default for ReplEngineConfig {
    /// History in `.repl_history`, at most 1000 lines; completion and color on.
    fn default() -> (r: Self)
        ensures
            opt_view(r.history_path) == Some(".repl_history"@),
            r.history_max_size == 1000,
            r.enable_completion,
            r.enable_color,
    {
        ReplEngineConfig {
            history_path: Some(String::from_str(".repl_history")),
            history_max_size: 1000,
            enable_completion: true,
            enable_color: true,
        }
    }
}

/// The names of the default commands, in the order they are registered.
pub open spec fn default_command_names() -> Seq<Seq<char>> {
    seq![
        "help"@,
        "status"@,
        "plugins"@,
        "adapters"@,
        "reload"@,
        "logs"@,
        "config"@,
        "engine"@,
        "clear"@,
        "exit"@,
    ]
}

/// The REPL: its commands and settings.
#[derive(Debug, Clone)]
pub struct ReplEngine {
    pub registry: CommandRegistry,
    pub config: ReplEngineConfig,
}

impl ReplEngine {
    /// A REPL with no commands and the default settings.
    pub fn new() -> (r: Self)
        ensures
            r.registry@.len() == 0,
            r.config.history_max_size == 1000,
    {
        ReplEngine { registry: CommandRegistry::new(), config: ReplEngineConfig::default() }
    }

    /// A REPL with no commands and the given settings.
    pub fn with_config(config: ReplEngineConfig) -> (r: Self)
        ensures
            r.registry@.len() == 0,
            r.config == config,
    {
        ReplEngine { registry: CommandRegistry::new(), config }
    }

    /// Register the ten built-in commands, help first and exit last.
    pub fn register_default_commands(&mut self)
        ensures
            final(self).registry@.len() == old(self).registry@.len() + 10,
            forall|i: int|
                0 <= i < 10 ==> crate::repl::commands::command_name(
                    #[trigger] final(self).registry@[old(self).registry@.len() + i],
                ) == default_command_names()[i],
            final(self).config == old(self).config,
    {
        let mut names: Vec<String> = Vec::new();
        names.push(String::from_str("help"));
        names.push(String::from_str("status"));
        names.push(String::from_str("plugins"));
        names.push(String::from_str("adapters"));
        names.push(String::from_str("reload"));
        names.push(String::from_str("logs"));
        names.push(String::from_str("config"));
        names.push(String::from_str("engine"));
        names.push(String::from_str("clear"));
        names.push(String::from_str("exit"));
        let ghost start = self.registry@;
        self.registry.register(ReplCommand::Help(HelpCommand::new(names)));
        self.registry.register(ReplCommand::Status(StatusCommand));
        self.registry.register(ReplCommand::Plugins(PluginsCommand));
        self.registry.register(ReplCommand::Adapters(AdaptersCommand));
        self.registry.register(ReplCommand::Reload(ReloadCommand));
        self.registry.register(ReplCommand::Logs(LogsCommand));
        self.registry.register(ReplCommand::Config(ConfigCommand));
        self.registry.register(ReplCommand::Engine(EngineCommand));
        self.registry.register(ReplCommand::Clear(ClearCommand));
        self.registry.register(ReplCommand::Exit(ExitCommand));
        proof {
            let k = start.len() as int;
            let r = self.registry@;
            assert(r.len() == k + 10);
            assert forall|i: int| 0 <= i < 10 implies crate::repl::commands::command_name(
                #[trigger] r[k + i],
            ) == default_command_names()[i] by {
                if i == 0 {
                } else if i == 1 {
                } else if i == 2 {
                } else if i == 3 {
                } else if i == 4 {
                } else if i == 5 {
                } else if i == 6 {
                } else if i == 7 {
                } else if i == 8 {
                } else {
                }
            }
        }
    }
}

/// Some plugin is in an error state.
pub open spec fn any_plugin_error(infos: Seq<PluginInfo>) -> bool {
    exists|i: int| 0 <= i < infos.len() && infos[i].status is Error
}

/// Whether some plugin is in an error state.
pub fn check_for_errors(infos: &Vec<PluginInfo>) -> (r: bool)
    ensures
        r == any_plugin_error(infos@),
{
    let n = infos.len();
    let mut i: usize = 0;
    while i < n
        invariant
            n == infos@.len(),
            i <= n,
            forall|j: int| 0 <= j < i ==> !(infos@[j].status is Error),
        decreases n - i,
    {
        if infos[i].status.error_message().is_some() {
            return true;
        }
        i = i + 1;
    }
    false
}

/// The prompt, `loquat[<env>]> `, with the environment in bright green, or,
/// when some plugin is in an error state, `loquat[<env>|!]> ` with the `!`
/// in red (colored decides whether colors show).
pub fn generate_prompt(env: &str, has_errors: bool) -> (r: String)
    ensures
        has_errors ==> (r@ == "loquat["@ + env@ + "|!]> "@ || r@ == "loquat["@ + env@ + "|"@
            + painted("!"@, "31"@) + "]> "@),
        !has_errors ==> (r@ == "loquat["@ + env@ + "]> "@ || r@ == "loquat["@ + painted(
            env@,
            "92"@,
        ) + "]> "@),
{
    let mut r = String::from_str("loquat[");
    if has_errors {
        let bang = paint_red("!");
        r.append(env);
        r.append("|");
        r.append(bang.as_str());
        r.append("]> ");
        assert(r@ =~= "loquat["@ + env@ + "|"@ + bang@ + "]> "@);
        proof {
            reveal_strlit("!");
            reveal_strlit("|");
            reveal_strlit("]> ");
            reveal_strlit("|!]> ");
            if bang@ == "!"@ {
                assert(r@ =~= "loquat["@ + env@ + "|!]> "@);
            }
        }
    } else {
        let painted = paint_bright_green(env);
        r.append(painted.as_str());
        r.append("]> ");
        assert(r@ =~= "loquat["@ + painted@ + "]> "@);
    }
    r
}

} // verus!
