//! REPL commands: their names, aliases, help texts and completions, and the
//! registry that finds them.

use vstd::prelude::*;
use crate::text::{seq_starts_with, starts_with, str_eq};

verus! {

/// What the REPL knows of the running system when it completes input.
#[derive(Debug, Clone, Copy)]
pub struct ReplContext {
    /// A plugin manager is attached.
    pub plugins_available: bool,
    /// An adapter manager is attached.
    pub adapters_available: bool,
}

impl ReplContext {
    /// A context with or without plugin and adapter managers.
    pub fn new(plugins_available: bool, adapters_available: bool) -> (r: Self)
        ensures
            r.plugins_available == plugins_available,
            r.adapters_available == adapters_available,
    {
        ReplContext { plugins_available, adapters_available }
    }
}

/// The views of a sequence of string slices.
pub open spec fn strs_view(s: Seq<&str>) -> Seq<Seq<char>> {
    s.map_values(|x: &str| x@)
}

/// The candidates that start with `prefix`, in order.
pub open spec fn with_prefix(cands: Seq<Seq<char>>, prefix: Seq<char>) -> Seq<Seq<char>> {
    cands.filter(|c: Seq<char>| seq_starts_with(c, prefix))
}

/// The texts of a list of arguments.
pub open spec fn arg_views(args: Seq<String>) -> Seq<Seq<char>> {
    args.map_values(|a: String| a@)
}

/// Completion of a command's first argument: with no argument or one, the
/// candidates starting with it; past the first argument, nothing.
pub open spec fn spec_complete_first(args: Seq<Seq<char>>, cands: Seq<Seq<char>>) -> Seq<Seq<char>> {
    if args.len() == 0 {
        with_prefix(cands, Seq::empty())
    } else if args.len() == 1 {
        with_prefix(cands, args[0])
    } else {
        Seq::empty()
    }
}

/// Completion of a subcommand: with no argument every subcommand, with one
/// those starting with it, past it nothing.
pub open spec fn spec_complete_subcommand(args: Seq<Seq<char>>, cands: Seq<Seq<char>>) -> Seq<Seq<char>> {
    if args.len() == 0 {
        cands
    } else if args.len() == 1 {
        with_prefix(cands, args[0])
    } else {
        Seq::empty()
    }
}

/// The candidates that start with `prefix`, in order.
pub fn filter_prefix(cands: &Vec<&'static str>, prefix: &str) -> (r: Vec<String>)
    ensures
        r@.len() == with_prefix(strs_view(cands@), prefix@).len(),
        forall|i: int| 0 <= i < r@.len() ==> r@[i]@ == with_prefix(strs_view(cands@), prefix@)[i],
{
    let ghost f = |c: Seq<char>| seq_starts_with(c, prefix@);
    let n = cands.len();
    let mut out: Vec<String> = Vec::new();
    let mut i: usize = 0;
    while i < n
        invariant
            n == cands@.len(),
            i <= n,
            f == (|c: Seq<char>| seq_starts_with(c, prefix@)),
            out@.len() == strs_view(cands@).subrange(0, i as int).filter(f).len(),
            forall|k: int|
                0 <= k < out@.len() ==> out@[k]@ == strs_view(cands@).subrange(0, i as int).filter(
                    f,
                )[k],
        decreases n - i,
    {
        let ghost s = strs_view(cands@);
        proof {
            assert(s.subrange(0, i + 1) =~= s.subrange(0, i as int).push(s[i as int]));
            s.subrange(0, i as int).lemma_filter_push(s[i as int], f);
        }
        if starts_with(cands[i], prefix) {
            out.push(String::from_str(cands[i]));
        }
        i = i + 1;
    }
    assert(strs_view(cands@).subrange(0, n as int) =~= strs_view(cands@));
    out
}

/// Completion of a first argument from `cands`.
fn complete_first(args: &[String], cands: &Vec<&'static str>) -> (r: Vec<String>)
    ensures
        r@.len() == spec_complete_first(arg_views(args@), strs_view(cands@)).len(),
        forall|i: int| 0 <= i < r@.len() ==> r@[i]@ == spec_complete_first(arg_views(args@), strs_view(cands@))[i],
{
    if args.len() == 0 {
        proof {
            reveal_strlit("");
        }
        let r = filter_prefix(cands, "");
        assert(""@ =~= Seq::<char>::empty());
        r
    } else if args.len() == 1 {
        filter_prefix(cands, args[0].as_str())
    } else {
        Vec::new()
    }
}

/// Completion of a subcommand from `cands`.
fn complete_subcommand(args: &[String], cands: &Vec<&'static str>) -> (r: Vec<String>)
    ensures
        r@.len() == spec_complete_subcommand(arg_views(args@), strs_view(cands@)).len(),
        forall|i: int|
            0 <= i < r@.len() ==> r@[i]@ == spec_complete_subcommand(arg_views(args@), strs_view(cands@))[i],
{
    if args.len() == 0 {
        let n = cands.len();
        let mut out: Vec<String> = Vec::new();
        let mut i: usize = 0;
        while i < n
            invariant
                n == cands@.len(),
                i <= n,
                out@.len() == i,
                forall|k: int| 0 <= k < i ==> out@[k]@ == cands@[k]@,
            decreases n - i,
        {
            out.push(String::from_str(cands[i]));
            i = i + 1;
        }
        out
    } else if args.len() == 1 {
        filter_prefix(cands, args[0].as_str())
    } else {
        Vec::new()
    }
}

/// The help of a command with usage `usage`, description `description` and
/// longer help `detailed`.
pub open spec fn help_text(usage: Seq<char>, description: Seq<char>, detailed: Seq<char>) -> Seq<char> {
    "Usage: "@ + usage + "\n\nDescription: "@ + description + "\n\n"@ + detailed
}

/// A REPL command's description and completion.
pub trait Command {
    /// The command's name.
    fn name(&self) -> &'static str;

    /// Other names it answers to.
    fn aliases(&self) -> Vec<&'static str>;

    /// What `description` gives: nothing unless an implementation says otherwise.
    open spec fn spec_description(&self) -> Seq<char> {
        Seq::empty()
    }

    /// What `usage` gives: nothing unless an implementation says otherwise.
    open spec fn spec_usage(&self) -> Seq<char> {
        Seq::empty()
    }

    /// What `detailed_help` gives: nothing unless an implementation says otherwise.
    open spec fn spec_detailed_help(&self) -> Seq<char> {
        Seq::empty()
    }

    /// One line on what it does.
    fn description(&self) -> (r: &'static str)
        ensures
            r@ == self.spec_description(),
    ;

    /// How it is called.
    fn usage(&self) -> (r: &'static str)
        ensures
            r@ == self.spec_usage(),
    ;

    /// Longer help.
    fn detailed_help(&self) -> (r: &'static str)
        ensures
            r@ == self.spec_detailed_help(),
    ;

    /// Completions of its arguments `args`.
    fn complete(&self, args: &[String], ctx: &ReplContext) -> Vec<String>;

    /// Usage, description and longer help together.
    fn help(&self) -> (r: String)
        ensures
            r@ == help_text(self.spec_usage(), self.spec_description(), self.spec_detailed_help()),
    {
        let mut r = String::from_str("Usage: ");
        r.append(self.usage());
        r.append("\n\nDescription: ");
        r.append(self.description());
        r.append("\n\n");
        r.append(self.detailed_help());
        r
    }
}

/// Shows help for all commands or one.
#[derive(Debug, Clone)]
pub struct HelpCommand {
    pub command_names: Vec<String>,
}

impl HelpCommand {
    /// The help command, knowing the names of all commands.
    pub fn new(command_names: Vec<String>) -> (r: Self)
        ensures
            r.command_names == command_names,
    {
        HelpCommand { command_names }
    }
}


/// The candidates `help` completes its first argument from.
pub open spec fn help_candidates() -> Seq<Seq<char>> {
    seq!["help"@, "status"@, "plugins"@, "adapters"@, "reload"@, "logs"@, "config"@, "engine"@, "clear"@, "exit"@]
}

fn help_candidate_list() -> (r: Vec<&'static str>)
    ensures
        strs_view(r@) == help_candidates(),
{
    let mut c: Vec<&'static str> = Vec::new();
        c.push("help");
        c.push("status");
        c.push("plugins");
        c.push("adapters");
        c.push("reload");
        c.push("logs");
        c.push("config");
        c.push("engine");
        c.push("clear");
        c.push("exit");
    assert(strs_view(c@) =~= help_candidates());
    c
}

impl Command for HelpCommand {
    open spec fn spec_description(&self) -> Seq<char> {
        "Show help information"@
    }

    open spec fn spec_usage(&self) -> Seq<char> {
        "help [command]"@
    }

    open spec fn spec_detailed_help(&self) -> Seq<char> {
        "Show help information for all commands or a specific command.\n\nExamples:\n  help              Show help for all commands\n  help status       Show detailed help for the status command\n  help reload       Show detailed help for the reload command\n\nAliases: h, ?\n"@
    }

    fn name(&self) -> (r: &'static str)
        ensures
            r@ == "help"@,
    {
        "help"
    }

    fn aliases(&self) -> (r: Vec<&'static str>)
        ensures
            strs_view(r@) == seq!["h"@, "?"@],
    {
        let mut v: Vec<&'static str> = Vec::new();
        v.push("h");
        v.push("?");
        assert(strs_view(v@) =~= seq!["h"@, "?"@]);
        v
    }

    fn description(&self) -> (r: &'static str)
        ensures
            r@ == "Show help information"@,
    {
        "Show help information"
    }

    fn usage(&self) -> (r: &'static str)
        ensures
            r@ == "help [command]"@,
    {
        "help [command]"
    }

    fn detailed_help(&self) -> (r: &'static str)
        ensures
            r@ == "Show help information for all commands or a specific command.\n\nExamples:\n  help              Show help for all commands\n  help status       Show detailed help for the status command\n  help reload       Show detailed help for the reload command\n\nAliases: h, ?\n"@,
    {
        "Show help information for all commands or a specific command.\n\nExamples:\n  help              Show help for all commands\n  help status       Show detailed help for the status command\n  help reload       Show detailed help for the reload command\n\nAliases: h, ?\n"
    }

    fn complete(&self, args: &[String], ctx: &ReplContext) -> (r: Vec<String>)
        ensures
            r@.len() == spec_complete_first(arg_views(args@), help_candidates()).len() && forall|i: int| 0 <= i < r@.len() ==> r@[i]@ == spec_complete_first(arg_views(args@), help_candidates())[i],
    {
        complete_first(args, &help_candidate_list())
    }
}

/// Shows the system status.
#[derive(Debug, Clone, Copy)]
pub struct StatusCommand;

impl Command for StatusCommand {
    open spec fn spec_description(&self) -> Seq<char> {
        "Display system status"@
    }

    open spec fn spec_usage(&self) -> Seq<char> {
        "status"@
    }

    open spec fn spec_detailed_help(&self) -> Seq<char> {
        "Display the current status of the Loquat framework including:\n- Engine state\n- Uptime\n- Environment\n- Plugin status\n- Adapter status\n\nExample:\n  status\n"@
    }

    fn name(&self) -> (r: &'static str)
        ensures
            r@ == "status"@,
    {
        "status"
    }

    fn aliases(&self) -> (r: Vec<&'static str>)
        ensures
            strs_view(r@) == seq!["st"@, "info"@],
    {
        let mut v: Vec<&'static str> = Vec::new();
        v.push("st");
        v.push("info");
        assert(strs_view(v@) =~= seq!["st"@, "info"@]);
        v
    }

    fn description(&self) -> (r: &'static str)
        ensures
            r@ == "Display system status"@,
    {
        "Display system status"
    }

    fn usage(&self) -> (r: &'static str)
        ensures
            r@ == "status"@,
    {
        "status"
    }

    fn detailed_help(&self) -> (r: &'static str)
        ensures
            r@ == "Display the current status of the Loquat framework including:\n- Engine state\n- Uptime\n- Environment\n- Plugin status\n- Adapter status\n\nExample:\n  status\n"@,
    {
        "Display the current status of the Loquat framework including:\n- Engine state\n- Uptime\n- Environment\n- Plugin status\n- Adapter status\n\nExample:\n  status\n"
    }

    fn complete(&self, args: &[String], ctx: &ReplContext) -> (r: Vec<String>)
        ensures
            r@.len() == 0,
    {
        Vec::new()
    }
}

/// Manages plugins.
#[derive(Debug, Clone, Copy)]
pub struct PluginsCommand;


/// The candidates `plugins` completes its first argument from.
pub open spec fn plugins_candidates() -> Seq<Seq<char>> {
    seq!["list"@, "ls"@, "info"@, "load"@, "unload"@, "reload"@]
}

fn plugins_candidate_list() -> (r: Vec<&'static str>)
    ensures
        strs_view(r@) == plugins_candidates(),
{
    let mut c: Vec<&'static str> = Vec::new();
        c.push("list");
        c.push("ls");
        c.push("info");
        c.push("load");
        c.push("unload");
        c.push("reload");
    assert(strs_view(c@) =~= plugins_candidates());
    c
}

impl Command for PluginsCommand {
    open spec fn spec_description(&self) -> Seq<char> {
        "Plugin management"@
    }

    open spec fn spec_usage(&self) -> Seq<char> {
        "plugins [list|info|load|unload|reload] [name]"@
    }

    open spec fn spec_detailed_help(&self) -> Seq<char> {
        "Manage plugins in the Loquat framework.\n\nSubcommands:\n  plugins list [filter]        List all plugins (optionally filter by name)\n  plugins info <name>         Show detailed information about a plugin\n  plugins load <name>          Load a specific plugin\n  plugins unload <name>        Unload a specific plugin\n  plugins reload <name>        Reload a specific plugin\n\nExamples:\n  plugins                      List all plugins\n  plugins list                 Same as above\n  plugins info console_adapter  Show info about console_adapter\n  plugins reload example_plugin Reload a specific plugin\n\nAliases: pl, plugin\n"@
    }

    fn name(&self) -> (r: &'static str)
        ensures
            r@ == "plugins"@,
    {
        "plugins"
    }

    fn aliases(&self) -> (r: Vec<&'static str>)
        ensures
            strs_view(r@) == seq!["pl"@, "plugin"@],
    {
        let mut v: Vec<&'static str> = Vec::new();
        v.push("pl");
        v.push("plugin");
        assert(strs_view(v@) =~= seq!["pl"@, "plugin"@]);
        v
    }

    fn description(&self) -> (r: &'static str)
        ensures
            r@ == "Plugin management"@,
    {
        "Plugin management"
    }

    fn usage(&self) -> (r: &'static str)
        ensures
            r@ == "plugins [list|info|load|unload|reload] [name]"@,
    {
        "plugins [list|info|load|unload|reload] [name]"
    }

    fn detailed_help(&self) -> (r: &'static str)
        ensures
            r@ == "Manage plugins in the Loquat framework.\n\nSubcommands:\n  plugins list [filter]        List all plugins (optionally filter by name)\n  plugins info <name>         Show detailed information about a plugin\n  plugins load <name>          Load a specific plugin\n  plugins unload <name>        Unload a specific plugin\n  plugins reload <name>        Reload a specific plugin\n\nExamples:\n  plugins                      List all plugins\n  plugins list                 Same as above\n  plugins info console_adapter  Show info about console_adapter\n  plugins reload example_plugin Reload a specific plugin\n\nAliases: pl, plugin\n"@,
    {
        "Manage plugins in the Loquat framework.\n\nSubcommands:\n  plugins list [filter]        List all plugins (optionally filter by name)\n  plugins info <name>         Show detailed information about a plugin\n  plugins load <name>          Load a specific plugin\n  plugins unload <name>        Unload a specific plugin\n  plugins reload <name>        Reload a specific plugin\n\nExamples:\n  plugins                      List all plugins\n  plugins list                 Same as above\n  plugins info console_adapter  Show info about console_adapter\n  plugins reload example_plugin Reload a specific plugin\n\nAliases: pl, plugin\n"
    }

    fn complete(&self, args: &[String], ctx: &ReplContext) -> (r: Vec<String>)
        ensures
            !ctx.plugins_available ==> r@.len() == 0,
            ctx.plugins_available ==> r@.len() == spec_complete_subcommand(arg_views(args@), plugins_candidates()).len() && forall|i: int| 0 <= i < r@.len() ==> r@[i]@ == spec_complete_subcommand(arg_views(args@), plugins_candidates())[i],
    {
        if !ctx.plugins_available {
            return Vec::new();
        }
        complete_subcommand(args, &plugins_candidate_list())
    }
}

/// Manages adapters.
#[derive(Debug, Clone, Copy)]
pub struct AdaptersCommand;


/// The candidates `adapters` completes its first argument from.
pub open spec fn adapters_candidates() -> Seq<Seq<char>> {
    seq!["list"@, "ls"@, "info"@, "reload"@]
}

fn adapters_candidate_list() -> (r: Vec<&'static str>)
    ensures
        strs_view(r@) == adapters_candidates(),
{
    let mut c: Vec<&'static str> = Vec::new();
        c.push("list");
        c.push("ls");
        c.push("info");
        c.push("reload");
    assert(strs_view(c@) =~= adapters_candidates());
    c
}

impl Command for AdaptersCommand {
    open spec fn spec_description(&self) -> Seq<char> {
        "Adapter management"@
    }

    open spec fn spec_usage(&self) -> Seq<char> {
        "adapters [list|info|reload] [name]"@
    }

    open spec fn spec_detailed_help(&self) -> Seq<char> {
        "Manage adapters in Loquat framework.\n\nSubcommands:\n  adapters list [filter]        List all adapters (optionally filter by name)\n  adapters info <name>         Show detailed information about an adapter\n  adapters reload <name>       Reload a specific adapter\n\nExamples:\n  adapters                      List all adapters\n  adapters list                 Same as above\n  adapters info console         Show info about console adapter\n  adapters reload console       Reload a specific adapter\n\nAliases: ad, adapter\n"@
    }

    fn name(&self) -> (r: &'static str)
        ensures
            r@ == "adapters"@,
    {
        "adapters"
    }

    fn aliases(&self) -> (r: Vec<&'static str>)
        ensures
            strs_view(r@) == seq!["ad"@, "adapter"@],
    {
        let mut v: Vec<&'static str> = Vec::new();
        v.push("ad");
        v.push("adapter");
        assert(strs_view(v@) =~= seq!["ad"@, "adapter"@]);
        v
    }

    fn description(&self) -> (r: &'static str)
        ensures
            r@ == "Adapter management"@,
    {
        "Adapter management"
    }

    fn usage(&self) -> (r: &'static str)
        ensures
            r@ == "adapters [list|info|reload] [name]"@,
    {
        "adapters [list|info|reload] [name]"
    }

    fn detailed_help(&self) -> (r: &'static str)
        ensures
            r@ == "Manage adapters in Loquat framework.\n\nSubcommands:\n  adapters list [filter]        List all adapters (optionally filter by name)\n  adapters info <name>         Show detailed information about an adapter\n  adapters reload <name>       Reload a specific adapter\n\nExamples:\n  adapters                      List all adapters\n  adapters list                 Same as above\n  adapters info console         Show info about console adapter\n  adapters reload console       Reload a specific adapter\n\nAliases: ad, adapter\n"@,
    {
        "Manage adapters in Loquat framework.\n\nSubcommands:\n  adapters list [filter]        List all adapters (optionally filter by name)\n  adapters info <name>         Show detailed information about an adapter\n  adapters reload <name>       Reload a specific adapter\n\nExamples:\n  adapters                      List all adapters\n  adapters list                 Same as above\n  adapters info console         Show info about console adapter\n  adapters reload console       Reload a specific adapter\n\nAliases: ad, adapter\n"
    }

    fn complete(&self, args: &[String], ctx: &ReplContext) -> (r: Vec<String>)
        ensures
            !ctx.adapters_available ==> r@.len() == 0,
            ctx.adapters_available ==> r@.len() == spec_complete_subcommand(arg_views(args@), adapters_candidates()).len() && forall|i: int| 0 <= i < r@.len() ==> r@[i]@ == spec_complete_subcommand(arg_views(args@), adapters_candidates())[i],
    {
        if !ctx.adapters_available {
            return Vec::new();
        }
        complete_subcommand(args, &adapters_candidate_list())
    }
}

/// Reloads configuration, plugins or adapters.
#[derive(Debug, Clone, Copy)]
pub struct ReloadCommand;


/// The candidates `reload` completes its first argument from.
pub open spec fn reload_candidates() -> Seq<Seq<char>> {
    seq!["all"@, "plugins"@, "adapters"@, "config"@]
}

fn reload_candidate_list() -> (r: Vec<&'static str>)
    ensures
        strs_view(r@) == reload_candidates(),
{
    let mut c: Vec<&'static str> = Vec::new();
        c.push("all");
        c.push("plugins");
        c.push("adapters");
        c.push("config");
    assert(strs_view(c@) =~= reload_candidates());
    c
}

impl Command for ReloadCommand {
    open spec fn spec_description(&self) -> Seq<char> {
        "Reload configuration/plugins/adapters"@
    }

    open spec fn spec_usage(&self) -> Seq<char> {
        "reload [all|plugins|adapters|config]"@
    }

    open spec fn spec_detailed_help(&self) -> Seq<char> {
        "Reload various components of the Loquat framework.\n\nSubcommands:\n  reload all        Reload everything (config, plugins, and adapters)\n  reload plugins    Reload all plugins\n  reload adapters   Reload all adapters\n  reload config     Reload configuration file\n\nExamples:\n  reload             Reload everything (same as 'reload all')\n  reload plugins     Reload only plugins\n  reload adapters    Reload only adapters\n\nAliases: r\n"@
    }

    fn name(&self) -> (r: &'static str)
        ensures
            r@ == "reload"@,
    {
        "reload"
    }

    fn aliases(&self) -> (r: Vec<&'static str>)
        ensures
            strs_view(r@) == seq!["r"@],
    {
        let mut v: Vec<&'static str> = Vec::new();
        v.push("r");
        assert(strs_view(v@) =~= seq!["r"@]);
        v
    }

    fn description(&self) -> (r: &'static str)
        ensures
            r@ == "Reload configuration/plugins/adapters"@,
    {
        "Reload configuration/plugins/adapters"
    }

    fn usage(&self) -> (r: &'static str)
        ensures
            r@ == "reload [all|plugins|adapters|config]"@,
    {
        "reload [all|plugins|adapters|config]"
    }

    fn detailed_help(&self) -> (r: &'static str)
        ensures
            r@ == "Reload various components of the Loquat framework.\n\nSubcommands:\n  reload all        Reload everything (config, plugins, and adapters)\n  reload plugins    Reload all plugins\n  reload adapters   Reload all adapters\n  reload config     Reload configuration file\n\nExamples:\n  reload             Reload everything (same as 'reload all')\n  reload plugins     Reload only plugins\n  reload adapters    Reload only adapters\n\nAliases: r\n"@,
    {
        "Reload various components of the Loquat framework.\n\nSubcommands:\n  reload all        Reload everything (config, plugins, and adapters)\n  reload plugins    Reload all plugins\n  reload adapters   Reload all adapters\n  reload config     Reload configuration file\n\nExamples:\n  reload             Reload everything (same as 'reload all')\n  reload plugins     Reload only plugins\n  reload adapters    Reload only adapters\n\nAliases: r\n"
    }

    fn complete(&self, args: &[String], ctx: &ReplContext) -> (r: Vec<String>)
        ensures
            r@.len() == spec_complete_first(arg_views(args@), reload_candidates()).len() && forall|i: int| 0 <= i < r@.len() ==> r@[i]@ == spec_complete_first(arg_views(args@), reload_candidates())[i],
    {
        complete_first(args, &reload_candidate_list())
    }
}

/// Shows and follows the logs.
#[derive(Debug, Clone, Copy)]
pub struct LogsCommand;

impl Command for LogsCommand {
    open spec fn spec_description(&self) -> Seq<char> {
        "View and follow logs"@
    }

    open spec fn spec_usage(&self) -> Seq<char> {
        "logs [follow|clear] [lines]"@
    }

    open spec fn spec_detailed_help(&self) -> Seq<char> {
        "View and follow application logs.\n\nSubcommands:\n  logs [lines]             Show the last N lines (default: 50)\n  logs follow [lines]       Follow logs in real-time (like tail -f)\n  logs clear               Clear the log file\n\nExamples:\n  logs                     Show last 50 log lines\n  logs 100                 Show last 100 log lines\n  logs follow               Follow logs in real-time\n  logs follow 20            Follow and show last 20 lines\n  logs clear               Clear the log file\n\nNote: Press Ctrl+C to exit follow mode\n"@
    }

    fn name(&self) -> (r: &'static str)
        ensures
            r@ == "logs"@,
    {
        "logs"
    }

    fn aliases(&self) -> (r: Vec<&'static str>)
        ensures
            strs_view(r@) == seq!["log"@],
    {
        let mut v: Vec<&'static str> = Vec::new();
        v.push("log");
        assert(strs_view(v@) =~= seq!["log"@]);
        v
    }

    fn description(&self) -> (r: &'static str)
        ensures
            r@ == "View and follow logs"@,
    {
        "View and follow logs"
    }

    fn usage(&self) -> (r: &'static str)
        ensures
            r@ == "logs [follow|clear] [lines]"@,
    {
        "logs [follow|clear] [lines]"
    }

    fn detailed_help(&self) -> (r: &'static str)
        ensures
            r@ == "View and follow application logs.\n\nSubcommands:\n  logs [lines]             Show the last N lines (default: 50)\n  logs follow [lines]       Follow logs in real-time (like tail -f)\n  logs clear               Clear the log file\n\nExamples:\n  logs                     Show last 50 log lines\n  logs 100                 Show last 100 log lines\n  logs follow               Follow logs in real-time\n  logs follow 20            Follow and show last 20 lines\n  logs clear               Clear the log file\n\nNote: Press Ctrl+C to exit follow mode\n"@,
    {
        "View and follow application logs.\n\nSubcommands:\n  logs [lines]             Show the last N lines (default: 50)\n  logs follow [lines]       Follow logs in real-time (like tail -f)\n  logs clear               Clear the log file\n\nExamples:\n  logs                     Show last 50 log lines\n  logs 100                 Show last 100 log lines\n  logs follow               Follow logs in real-time\n  logs follow 20            Follow and show last 20 lines\n  logs clear               Clear the log file\n\nNote: Press Ctrl+C to exit follow mode\n"
    }

    fn complete(&self, args: &[String], ctx: &ReplContext) -> (r: Vec<String>)
        ensures
            r@.len() == 0,
    {
        Vec::new()
    }
}

/// Shows the configuration.
#[derive(Debug, Clone, Copy)]
pub struct ConfigCommand;

impl Command for ConfigCommand {
    open spec fn spec_description(&self) -> Seq<char> {
        "Show configuration"@
    }

    open spec fn spec_usage(&self) -> Seq<char> {
        "config"@
    }

    open spec fn spec_detailed_help(&self) -> Seq<char> {
        "Display the current Loquat framework configuration.\n\nShows:\n- General settings (name, environment)\n- Logging settings (level, format, output)\n- Plugin settings (enabled, auto_load, hot_reload)\n- Adapter settings (enabled, auto_load, hot_reload)\n- Web settings (enabled, host, port)\n\nExample:\n  config\n\nNote: This only shows the configuration, not modify it.\nTo modify configuration, edit the config files in the config/ directory.\n"@
    }

    fn name(&self) -> (r: &'static str)
        ensures
            r@ == "config"@,
    {
        "config"
    }

    fn aliases(&self) -> (r: Vec<&'static str>)
        ensures
            strs_view(r@) == seq!["cfg"@],
    {
        let mut v: Vec<&'static str> = Vec::new();
        v.push("cfg");
        assert(strs_view(v@) =~= seq!["cfg"@]);
        v
    }

    fn description(&self) -> (r: &'static str)
        ensures
            r@ == "Show configuration"@,
    {
        "Show configuration"
    }

    fn usage(&self) -> (r: &'static str)
        ensures
            r@ == "config"@,
    {
        "config"
    }

    fn detailed_help(&self) -> (r: &'static str)
        ensures
            r@ == "Display the current Loquat framework configuration.\n\nShows:\n- General settings (name, environment)\n- Logging settings (level, format, output)\n- Plugin settings (enabled, auto_load, hot_reload)\n- Adapter settings (enabled, auto_load, hot_reload)\n- Web settings (enabled, host, port)\n\nExample:\n  config\n\nNote: This only shows the configuration, not modify it.\nTo modify configuration, edit the config files in the config/ directory.\n"@,
    {
        "Display the current Loquat framework configuration.\n\nShows:\n- General settings (name, environment)\n- Logging settings (level, format, output)\n- Plugin settings (enabled, auto_load, hot_reload)\n- Adapter settings (enabled, auto_load, hot_reload)\n- Web settings (enabled, host, port)\n\nExample:\n  config\n\nNote: This only shows the configuration, not modify it.\nTo modify configuration, edit the config files in the config/ directory.\n"
    }

    fn complete(&self, args: &[String], ctx: &ReplContext) -> (r: Vec<String>)
        ensures
            r@.len() == 0,
    {
        Vec::new()
    }
}

/// Controls the engine.
#[derive(Debug, Clone, Copy)]
pub struct EngineCommand;


/// The candidates `engine` completes its first argument from.
pub open spec fn engine_candidates() -> Seq<Seq<char>> {
    seq!["start"@, "stop"@, "restart"@, "status"@]
}

fn engine_candidate_list() -> (r: Vec<&'static str>)
    ensures
        strs_view(r@) == engine_candidates(),
{
    let mut c: Vec<&'static str> = Vec::new();
        c.push("start");
        c.push("stop");
        c.push("restart");
        c.push("status");
    assert(strs_view(c@) =~= engine_candidates());
    c
}

impl Command for EngineCommand {
    open spec fn spec_description(&self) -> Seq<char> {
        "Control engine"@
    }

    open spec fn spec_usage(&self) -> Seq<char> {
        "engine [start|stop|restart|status]"@
    }

    open spec fn spec_detailed_help(&self) -> Seq<char> {
        "Control the Loquat engine.\n\nSubcommands:\n  engine start        Start the engine\n  engine stop         Stop the engine\n  engine restart      Restart the engine\n  engine status       Show engine status\n\nExamples:\n  engine start         Start the engine\n  engine stop          Stop the engine\n  engine restart       Restart the engine\n\nNote: The engine is automatically started on application launch.\n"@
    }

    fn name(&self) -> (r: &'static str)
        ensures
            r@ == "engine"@,
    {
        "engine"
    }

    fn aliases(&self) -> (r: Vec<&'static str>)
        ensures
            strs_view(r@) == seq!["eng"@],
    {
        let mut v: Vec<&'static str> = Vec::new();
        v.push("eng");
        assert(strs_view(v@) =~= seq!["eng"@]);
        v
    }

    fn description(&self) -> (r: &'static str)
        ensures
            r@ == "Control engine"@,
    {
        "Control engine"
    }

    fn usage(&self) -> (r: &'static str)
        ensures
            r@ == "engine [start|stop|restart|status]"@,
    {
        "engine [start|stop|restart|status]"
    }

    fn detailed_help(&self) -> (r: &'static str)
        ensures
            r@ == "Control the Loquat engine.\n\nSubcommands:\n  engine start        Start the engine\n  engine stop         Stop the engine\n  engine restart      Restart the engine\n  engine status       Show engine status\n\nExamples:\n  engine start         Start the engine\n  engine stop          Stop the engine\n  engine restart       Restart the engine\n\nNote: The engine is automatically started on application launch.\n"@,
    {
        "Control the Loquat engine.\n\nSubcommands:\n  engine start        Start the engine\n  engine stop         Stop the engine\n  engine restart      Restart the engine\n  engine status       Show engine status\n\nExamples:\n  engine start         Start the engine\n  engine stop          Stop the engine\n  engine restart       Restart the engine\n\nNote: The engine is automatically started on application launch.\n"
    }

    fn complete(&self, args: &[String], ctx: &ReplContext) -> (r: Vec<String>)
        ensures
            r@.len() == spec_complete_first(arg_views(args@), engine_candidates()).len() && forall|i: int| 0 <= i < r@.len() ==> r@[i]@ == spec_complete_first(arg_views(args@), engine_candidates())[i],
    {
        complete_first(args, &engine_candidate_list())
    }
}

/// Clears the screen.
#[derive(Debug, Clone, Copy)]
pub struct ClearCommand;

impl Command for ClearCommand {
    open spec fn spec_description(&self) -> Seq<char> {
        "Clear the screen"@
    }

    open spec fn spec_usage(&self) -> Seq<char> {
        "clear"@
    }

    open spec fn spec_detailed_help(&self) -> Seq<char> {
        "Clear the terminal screen.\n\nThis is equivalent to the 'cls' command on Windows or 'clear' on Unix/Linux.\n\nExample:\n  clear\n\nAliases: cls, c\n"@
    }

    fn name(&self) -> (r: &'static str)
        ensures
            r@ == "clear"@,
    {
        "clear"
    }

    fn aliases(&self) -> (r: Vec<&'static str>)
        ensures
            strs_view(r@) == seq!["cls"@, "c"@],
    {
        let mut v: Vec<&'static str> = Vec::new();
        v.push("cls");
        v.push("c");
        assert(strs_view(v@) =~= seq!["cls"@, "c"@]);
        v
    }

    fn description(&self) -> (r: &'static str)
        ensures
            r@ == "Clear the screen"@,
    {
        "Clear the screen"
    }

    fn usage(&self) -> (r: &'static str)
        ensures
            r@ == "clear"@,
    {
        "clear"
    }

    fn detailed_help(&self) -> (r: &'static str)
        ensures
            r@ == "Clear the terminal screen.\n\nThis is equivalent to the 'cls' command on Windows or 'clear' on Unix/Linux.\n\nExample:\n  clear\n\nAliases: cls, c\n"@,
    {
        "Clear the terminal screen.\n\nThis is equivalent to the 'cls' command on Windows or 'clear' on Unix/Linux.\n\nExample:\n  clear\n\nAliases: cls, c\n"
    }

    fn complete(&self, args: &[String], ctx: &ReplContext) -> (r: Vec<String>)
        ensures
            r@.len() == 0,
    {
        Vec::new()
    }
}

/// Leaves the REPL.
#[derive(Debug, Clone, Copy)]
pub struct ExitCommand;

impl Command for ExitCommand {
    open spec fn spec_description(&self) -> Seq<char> {
        "Exit REPL"@
    }

    open spec fn spec_usage(&self) -> Seq<char> {
        "exit"@
    }

    open spec fn spec_detailed_help(&self) -> Seq<char> {
        "Exit the REPL and return to the application.\n\nThis will exit the interactive REPL mode but keep the application running.\nTo completely stop the application, press Ctrl+C.\n\nExample:\n  exit\n\nAliases: quit, q\n"@
    }

    fn name(&self) -> (r: &'static str)
        ensures
            r@ == "exit"@,
    {
        "exit"
    }

    fn aliases(&self) -> (r: Vec<&'static str>)
        ensures
            strs_view(r@) == seq!["quit"@, "q"@],
    {
        let mut v: Vec<&'static str> = Vec::new();
        v.push("quit");
        v.push("q");
        assert(strs_view(v@) =~= seq!["quit"@, "q"@]);
        v
    }

    fn description(&self) -> (r: &'static str)
        ensures
            r@ == "Exit REPL"@,
    {
        "Exit REPL"
    }

    fn usage(&self) -> (r: &'static str)
        ensures
            r@ == "exit"@,
    {
        "exit"
    }

    fn detailed_help(&self) -> (r: &'static str)
        ensures
            r@ == "Exit the REPL and return to the application.\n\nThis will exit the interactive REPL mode but keep the application running.\nTo completely stop the application, press Ctrl+C.\n\nExample:\n  exit\n\nAliases: quit, q\n"@,
    {
        "Exit the REPL and return to the application.\n\nThis will exit the interactive REPL mode but keep the application running.\nTo completely stop the application, press Ctrl+C.\n\nExample:\n  exit\n\nAliases: quit, q\n"
    }

    fn complete(&self, args: &[String], ctx: &ReplContext) -> (r: Vec<String>)
        ensures
            r@.len() == 0,
    {
        Vec::new()
    }
}

/// One of the REPL's commands.
#[derive(Debug, Clone)]
pub enum ReplCommand {
    Help(HelpCommand),
    Status(StatusCommand),
    Plugins(PluginsCommand),
    Adapters(AdaptersCommand),
    Reload(ReloadCommand),
    Logs(LogsCommand),
    Config(ConfigCommand),
    Engine(EngineCommand),
    Clear(ClearCommand),
    Exit(ExitCommand),
}

/// The name of a command.
pub open spec fn command_name(c: ReplCommand) -> Seq<char> {
    match c {
        ReplCommand::Help(_) => "help"@,
        ReplCommand::Status(_) => "status"@,
        ReplCommand::Plugins(_) => "plugins"@,
        ReplCommand::Adapters(_) => "adapters"@,
        ReplCommand::Reload(_) => "reload"@,
        ReplCommand::Logs(_) => "logs"@,
        ReplCommand::Config(_) => "config"@,
        ReplCommand::Engine(_) => "engine"@,
        ReplCommand::Clear(_) => "clear"@,
        ReplCommand::Exit(_) => "exit"@,
    }
}

/// The aliases of a command.
pub open spec fn command_aliases(c: ReplCommand) -> Seq<Seq<char>> {
    match c {
        ReplCommand::Help(_) => seq!["h"@, "?"@],
        ReplCommand::Status(_) => seq!["st"@, "info"@],
        ReplCommand::Plugins(_) => seq!["pl"@, "plugin"@],
        ReplCommand::Adapters(_) => seq!["ad"@, "adapter"@],
        ReplCommand::Reload(_) => seq!["r"@],
        ReplCommand::Logs(_) => seq!["log"@],
        ReplCommand::Config(_) => seq!["cfg"@],
        ReplCommand::Engine(_) => seq!["eng"@],
        ReplCommand::Clear(_) => seq!["cls"@, "c"@],
        ReplCommand::Exit(_) => seq!["quit"@, "q"@],
    }
}

impl ReplCommand {
    /// The command's name.
    pub fn name(&self) -> (r: &'static str)
        ensures
            r@ == command_name(*self),
    {
        match self {
            ReplCommand::Help(c) => c.name(),
            ReplCommand::Status(c) => c.name(),
            ReplCommand::Plugins(c) => c.name(),
            ReplCommand::Adapters(c) => c.name(),
            ReplCommand::Reload(c) => c.name(),
            ReplCommand::Logs(c) => c.name(),
            ReplCommand::Config(c) => c.name(),
            ReplCommand::Engine(c) => c.name(),
            ReplCommand::Clear(c) => c.name(),
            ReplCommand::Exit(c) => c.name(),
        }
    }

    /// Its aliases.
    pub fn aliases(&self) -> (r: Vec<&'static str>)
        ensures
            strs_view(r@) == command_aliases(*self),
    {
        match self {
            ReplCommand::Help(c) => c.aliases(),
            ReplCommand::Status(c) => c.aliases(),
            ReplCommand::Plugins(c) => c.aliases(),
            ReplCommand::Adapters(c) => c.aliases(),
            ReplCommand::Reload(c) => c.aliases(),
            ReplCommand::Logs(c) => c.aliases(),
            ReplCommand::Config(c) => c.aliases(),
            ReplCommand::Engine(c) => c.aliases(),
            ReplCommand::Clear(c) => c.aliases(),
            ReplCommand::Exit(c) => c.aliases(),
        }
    }

    /// Completions of its arguments.
    pub fn complete(&self, args: &[String], ctx: &ReplContext) -> (r: Vec<String>)
        ensures
            holds_texts(r@, spec_command_completion(*self, arg_views(args@), *ctx)),
    {
        match self {
            ReplCommand::Help(c) => c.complete(args, ctx),
            ReplCommand::Status(c) => c.complete(args, ctx),
            ReplCommand::Plugins(c) => c.complete(args, ctx),
            ReplCommand::Adapters(c) => c.complete(args, ctx),
            ReplCommand::Reload(c) => c.complete(args, ctx),
            ReplCommand::Logs(c) => c.complete(args, ctx),
            ReplCommand::Config(c) => c.complete(args, ctx),
            ReplCommand::Engine(c) => c.complete(args, ctx),
            ReplCommand::Clear(c) => c.complete(args, ctx),
            ReplCommand::Exit(c) => c.complete(args, ctx),
        }
    }

    /// Its usage, description and longer help.
    pub fn help(&self) -> (r: String)
        ensures
            r@ == command_help(*self),
    {
        match self {
            ReplCommand::Help(c) => c.help(),
            ReplCommand::Status(c) => c.help(),
            ReplCommand::Plugins(c) => c.help(),
            ReplCommand::Adapters(c) => c.help(),
            ReplCommand::Reload(c) => c.help(),
            ReplCommand::Logs(c) => c.help(),
            ReplCommand::Config(c) => c.help(),
            ReplCommand::Engine(c) => c.help(),
            ReplCommand::Clear(c) => c.help(),
            ReplCommand::Exit(c) => c.help(),
        }
    }
}

/// The help of a command.
pub open spec fn command_help(c: ReplCommand) -> Seq<char> {
    match c {
        ReplCommand::Help(x) => help_text(x.spec_usage(), x.spec_description(), x.spec_detailed_help()),
        ReplCommand::Status(x) => help_text(x.spec_usage(), x.spec_description(), x.spec_detailed_help()),
        ReplCommand::Plugins(x) => help_text(x.spec_usage(), x.spec_description(), x.spec_detailed_help()),
        ReplCommand::Adapters(x) => help_text(x.spec_usage(), x.spec_description(), x.spec_detailed_help()),
        ReplCommand::Reload(x) => help_text(x.spec_usage(), x.spec_description(), x.spec_detailed_help()),
        ReplCommand::Logs(x) => help_text(x.spec_usage(), x.spec_description(), x.spec_detailed_help()),
        ReplCommand::Config(x) => help_text(x.spec_usage(), x.spec_description(), x.spec_detailed_help()),
        ReplCommand::Engine(x) => help_text(x.spec_usage(), x.spec_description(), x.spec_detailed_help()),
        ReplCommand::Clear(x) => help_text(x.spec_usage(), x.spec_description(), x.spec_detailed_help()),
        ReplCommand::Exit(x) => help_text(x.spec_usage(), x.spec_description(), x.spec_detailed_help()),
    }
}

/// The completions a command offers for the arguments `args`.
pub open spec fn spec_command_completion(c: ReplCommand, args: Seq<Seq<char>>, ctx: ReplContext) -> Seq<Seq<char>> {
    match c {
        ReplCommand::Help(_) => spec_complete_first(args, help_candidates()),
        ReplCommand::Plugins(_) => if ctx.plugins_available {
            spec_complete_subcommand(args, plugins_candidates())
        } else {
            Seq::empty()
        },
        ReplCommand::Adapters(_) => if ctx.adapters_available {
            spec_complete_subcommand(args, adapters_candidates())
        } else {
            Seq::empty()
        },
        ReplCommand::Reload(_) => spec_complete_first(args, reload_candidates()),
        ReplCommand::Engine(_) => spec_complete_first(args, engine_candidates()),
        _ => Seq::empty(),
    }
}

/// `r` holds `texts`, in order.
pub open spec fn holds_texts(r: Seq<String>, texts: Seq<Seq<char>>) -> bool {
    r.len() == texts.len() && forall|i: int| 0 <= i < r.len() ==> #[trigger] r[i]@ == texts[i]
}

/// A command answers to its name and to each of its aliases.
pub open spec fn answers_to(c: ReplCommand, name: Seq<char>) -> bool {
    command_name(c) == name || command_aliases(c).contains(name)
}

/// Each console command has its name and aliases: help (h, ?), status (st,
/// info), plugins (pl, plugin), adapters (ad, adapter), reload (r), logs
/// (log), config (cfg), engine (eng), clear (cls, c), exit (quit, q).
pub proof fn lemma_command_names(c: ReplCommand)
    ensures
        c is Help ==> command_name(c) == "help"@,
        c is Status ==> command_name(c) == "status"@,
        c is Plugins ==> command_name(c) == "plugins"@,
        c is Adapters ==> command_name(c) == "adapters"@,
        c is Reload ==> command_name(c) == "reload"@,
        c is Logs ==> command_name(c) == "logs"@,
        c is Config ==> command_name(c) == "config"@,
        c is Engine ==> command_name(c) == "engine"@,
        c is Clear ==> command_name(c) == "clear"@,
        c is Exit ==> command_name(c) == "exit"@,
        c is Help ==> command_aliases(c) == seq!["h"@, "?"@],
        c is Status ==> command_aliases(c) == seq!["st"@, "info"@],
        c is Plugins ==> command_aliases(c) == seq!["pl"@, "plugin"@],
        c is Adapters ==> command_aliases(c) == seq!["ad"@, "adapter"@],
        c is Reload ==> command_aliases(c) == seq!["r"@],
        c is Logs ==> command_aliases(c) == seq!["log"@],
        c is Config ==> command_aliases(c) == seq!["cfg"@],
        c is Engine ==> command_aliases(c) == seq!["eng"@],
        c is Clear ==> command_aliases(c) == seq!["cls"@, "c"@],
        c is Exit ==> command_aliases(c) == seq!["quit"@, "q"@],
{
}

/// The names of commands: each command's name followed by its aliases, in order.
pub open spec fn all_command_names(s: Seq<ReplCommand>) -> Seq<Seq<char>>
    decreases s.len(),
{
    if s.len() == 0 {
        Seq::empty()
    } else {
        all_command_names(s.drop_last()) + seq![command_name(s.last())] + command_aliases(s.last())
    }
}

/// Whether `c` has the Unicode property White_Space, which std's
/// `char::is_whitespace` tests.
pub open spec fn is_white_space(c: char) -> bool {
    let n = c as int;
    ||| 0x9 <= n <= 0xd
    ||| n == 0x20
    ||| n == 0x85
    ||| n == 0xa0
    ||| n == 0x1680
    ||| 0x2000 <= n <= 0x200a
    ||| n == 0x2028
    ||| n == 0x2029
    ||| n == 0x202f
    ||| n == 0x205f
    ||| n == 0x3000
}

/// The words of `s`, in order: its maximal runs of characters that are not
/// white space.
pub open spec fn whitespace_words(s: Seq<char>) -> Seq<Seq<char>>
    decreases s.len(),
{
    if s.len() == 0 {
        Seq::empty()
    } else {
        let w = whitespace_words(s.drop_last());
        let c = s.last();
        if is_white_space(c) {
            w
        } else if s.len() >= 2 && !is_white_space(s[s.len() - 2]) {
            w.drop_last().push(w.last().push(c))
        } else {
            w.push(seq![c])
        }
    }
}

/// Whether `c` has the Unicode property White_Space.
fn white_space(c: char) -> (r: bool)
    ensures
        r == is_white_space(c),
{
    let n = c as u32;
    (0x9 <= n && n <= 0xd) || n == 0x20 || n == 0x85 || n == 0xa0 || n == 0x1680 || (0x2000 <= n
        && n <= 0x200a) || n == 0x2028 || n == 0x2029 || n == 0x202f || n == 0x205f || n == 0x3000
}

/// The words of `s`, in order: what std's `str::split_whitespace` gives.
pub(crate) fn split_words(s: &str) -> (r: Vec<String>)
    ensures
        r@.len() == whitespace_words(s@).len(),
        forall|i: int| 0 <= i < r@.len() ==> r@[i]@ == whitespace_words(s@)[i],
{
    let n = s.unicode_len();
    let mut words: Vec<String> = Vec::new();
    let mut in_word = false;
    let mut start: usize = 0;
    let mut i: usize = 0;
    while i < n
        invariant
            n == s@.len(),
            i <= n,
            start <= i,
            in_word ==> start < i && !is_white_space(s@[i - 1]) && whitespace_words(
                s@.subrange(0, i as int),
            ) == words@.map_values(|w: String| w@).push(s@.subrange(start as int, i as int)),
            !in_word ==> (i == 0 || is_white_space(s@[i - 1])) && whitespace_words(
                s@.subrange(0, i as int),
            ) == words@.map_values(|w: String| w@),
        decreases n - i,
    {
        let c = s.get_char(i);
        let ghost p = s@.subrange(0, i as int);
        let ghost q = s@.subrange(0, i + 1);
        let ghost before = words@.map_values(|w: String| w@);
        proof {
            assert(q.drop_last() =~= p);
            assert(q.last() == c);
            if i > 0 {
                assert(q[q.len() - 2] == s@[i - 1]);
            }
        }
        if white_space(c) {
            if in_word {
                let w = String::from_str(s.substring_char(start, i));
                words.push(w);
                assert(words@.map_values(|w: String| w@) =~= before.push(s@.subrange(start as int, i as int)));
            }
            in_word = false;
        } else {
            if in_word {
                proof {
                    let w = whitespace_words(p);
                    assert(w.last() == s@.subrange(start as int, i as int));
                    assert(w.drop_last() =~= before);
                    assert(s@.subrange(start as int, i as int).push(c) =~= s@.subrange(start as int, i + 1));
                }
            } else {
                start = i;
                proof {
                    assert(s@.subrange(i as int, i + 1) =~= seq![c]);
                }
            }
            in_word = true;
        }
        i = i + 1;
    }
    if in_word {
        let ghost before = words@.map_values(|w: String| w@);
        let w = String::from_str(s.substring_char(start, n));
        words.push(w);
        assert(words@.map_values(|w: String| w@) =~= before.push(s@.subrange(start as int, n as int)));
    }
    assert(s@.subrange(0, n as int) =~= s@);
    words
}

/// Whether `c` answers to `name`.
fn answers(c: &ReplCommand, name: &str) -> (r: bool)
    ensures
        r == answers_to(*c, name@),
{
    if str_eq(c.name(), name) {
        return true;
    }
    let aliases = c.aliases();
    let m = aliases.len();
    let mut k: usize = 0;
    while k < m
        invariant
            m == aliases@.len(),
            k <= m,
            strs_view(aliases@) == command_aliases(*c),
            forall|x: int| 0 <= x < k ==> aliases@[x]@ != name@,
        decreases m - k,
    {
        if str_eq(aliases[k], name) {
            proof {
                assert(command_aliases(*c)[k as int] == name@);
            }
            return true;
        }
        k = k + 1;
    }
    proof {
        assert forall|x: int| 0 <= x < command_aliases(*c).len() implies command_aliases(*c)[x]
            != name@ by {
            assert(command_aliases(*c)[x] == aliases@[x]@);
        }
    }
    false
}

/// The commands of the REPL, in registration order.
#[derive(Debug, Clone)]
pub struct CommandRegistry {
    commands: Vec<ReplCommand>,
}

impl View for CommandRegistry {
    type V = Seq<ReplCommand>;

    closed spec fn view(&self) -> Seq<ReplCommand> {
        self.commands@
    }
}

impl CommandRegistry {
    /// No commands.
    pub fn new() -> (r: Self)
        ensures
            r@ == Seq::<ReplCommand>::empty(),
    {
        CommandRegistry { commands: Vec::new() }
    }

    /// One more command, last.
    pub fn register(&mut self, command: ReplCommand)
        ensures
            final(self)@ == old(self)@.push(command),
    {
        self.commands.push(command);
    }

    /// The first command that answers to `name`.
    pub fn find(&self, name: &str) -> (r: Option<&ReplCommand>)
        ensures
            r is None <==> forall|i: int| 0 <= i < self@.len() ==> !answers_to(self@[i], name@),
            r matches Some(c) ==> exists|i: int|
                0 <= i < self@.len() && self@[i] == *c && answers_to(*c, name@) && forall|j: int|
                    0 <= j < i ==> !answers_to(self@[j], name@),
    {
        let n = self.commands.len();
        let mut i: usize = 0;
        while i < n
            invariant
                n == self.commands@.len(),
                i <= n,
                forall|j: int| 0 <= j < i ==> !answers_to(self.commands@[j], name@),
            decreases n - i,
        {
            let c = &self.commands[i];
            if answers(c, name) {
                proof {
                    assert(self@[i as int] == *c);
                }
                return Some(c);
            }
            i = i + 1;
        }
        None
    }

    /// Every name and alias, command by command.
    pub fn all_names(&self) -> (r: Vec<String>)
        ensures
            r@.len() == all_command_names(self@).len(),
            forall|i: int| 0 <= i < r@.len() ==> r@[i]@ == all_command_names(self@)[i],
    {
        let n = self.commands.len();
        let mut out: Vec<String> = Vec::new();
        let mut i: usize = 0;
        while i < n
            invariant
                n == self.commands@.len(),
                i <= n,
                out@.len() == all_command_names(self.commands@.subrange(0, i as int)).len(),
                forall|k: int|
                    0 <= k < out@.len() ==> out@[k]@ == all_command_names(
                        self.commands@.subrange(0, i as int),
                    )[k],
            decreases n - i,
        {
            let ghost before = all_command_names(self.commands@.subrange(0, i as int));
            let c = &self.commands[i];
            out.push(String::from_str(c.name()));
            let aliases = c.aliases();
            let m = aliases.len();
            let mut k: usize = 0;
            while k < m
                invariant
                    m == aliases@.len(),
                    k <= m,
                    strs_view(aliases@) == command_aliases(*c),
                    out@.len() == before.len() + 1 + k,
                    forall|x: int| 0 <= x < before.len() ==> out@[x]@ == before[x],
                    out@[before.len() as int]@ == command_name(*c),
                    forall|x: int| 0 <= x < k ==> out@[before.len() + 1 + x]@ == aliases@[x]@,
                decreases m - k,
            {
                out.push(String::from_str(aliases[k]));
                k = k + 1;
            }
            proof {
                let s = self.commands@.subrange(0, i + 1);
                assert(s.drop_last() =~= self.commands@.subrange(0, i as int));
                assert(s.last() == *c);
                let t = all_command_names(s);
                assert(t =~= before + seq![command_name(*c)] + command_aliases(*c));
                assert forall|x: int| 0 <= x < out@.len() implies out@[x]@ == t[x] by {
                    if x < before.len() {
                    } else if x == before.len() {
                    } else {
                        let y = x - before.len() - 1;
                        assert(command_aliases(*c)[y] == aliases@[y]@);
                    }
                }
            }
            i = i + 1;
        }
        assert(self.commands@.subrange(0, n as int) =~= self.commands@);
        out
    }

    /// Completions of the input line `input`: with no word, every command
    /// name; with one, the names starting with it; with more, the first word
    /// followed by each completion its command offers for the rest.
    pub fn complete(&self, input: &str, ctx: &ReplContext) -> (r: Vec<String>)
        ensures
            whitespace_words(input@).len() == 0 ==> r@.len() == self@.len() && forall|i: int|
                0 <= i < r@.len() ==> r@[i]@ == command_name(self@[i]),
            whitespace_words(input@).len() == 1 ==> r@.len() == with_prefix(
                self@.map_values(|c: ReplCommand| command_name(c)),
                whitespace_words(input@)[0],
            ).len() && forall|i: int|
                0 <= i < r@.len() ==> r@[i]@ == with_prefix(
                    self@.map_values(|c: ReplCommand| command_name(c)),
                    whitespace_words(input@)[0],
                )[i],
            whitespace_words(input@).len() > 1 && (forall|i: int|
                0 <= i < self@.len() ==> !answers_to(self@[i], whitespace_words(input@)[0]))
                ==> r@.len() == 0,
            forall|i: int|
                0 <= i < self@.len() && whitespace_words(input@).len() > 1 && answers_to(
                    self@[i],
                    whitespace_words(input@)[0],
                ) && (forall|j: int| 0 <= j < i ==> !answers_to(self@[j], whitespace_words(input@)[0]))
                    ==> holds_texts(
                    r@,
                    spec_command_completion(
                        self@[i],
                        whitespace_words(input@).subrange(1, whitespace_words(input@).len() as int),
                        *ctx,
                    ).map_values(|t: Seq<char>| whitespace_words(input@)[0] + " "@ + t),
                ),
    {
        let parts = split_words(input);
        let n = self.commands.len();
        let ghost names = self.commands@.map_values(|c: ReplCommand| command_name(c));
        if parts.len() == 0 {
            let mut out: Vec<String> = Vec::new();
            let mut i: usize = 0;
            while i < n
                invariant
                    n == self.commands@.len(),
                    i <= n,
                    out@.len() == i,
                    forall|k: int| 0 <= k < i ==> out@[k]@ == command_name(self.commands@[k]),
                decreases n - i,
            {
                out.push(String::from_str(self.commands[i].name()));
                i = i + 1;
            }
            return out;
        }
        if parts.len() == 1 {
            let prefix = parts[0].as_str();
            let ghost f = |c: Seq<char>| seq_starts_with(c, prefix@);
            let mut out: Vec<String> = Vec::new();
            let mut i: usize = 0;
            while i < n
                invariant
                    n == self.commands@.len(),
                    i <= n,
                    names == self.commands@.map_values(|c: ReplCommand| command_name(c)),
                    f == (|c: Seq<char>| seq_starts_with(c, prefix@)),
                    out@.len() == names.subrange(0, i as int).filter(f).len(),
                    forall|k: int|
                        0 <= k < out@.len() ==> out@[k]@ == names.subrange(0, i as int).filter(f)[k],
                decreases n - i,
            {
                proof {
                    assert(names.subrange(0, i + 1) =~= names.subrange(0, i as int).push(
                        names[i as int],
                    ));
                    names.subrange(0, i as int).lemma_filter_push(names[i as int], f);
                }
                let name = self.commands[i].name();
                if starts_with(name, prefix) {
                    out.push(String::from_str(name));
                }
                i = i + 1;
            }
            assert(names.subrange(0, n as int) =~= names);
            return out;
        }
        match self.find(parts[0].as_str()) {
            None => Vec::new(),
            Some(cmd) => {
                let ghost words = whitespace_words(input@);
                let mut args: Vec<String> = Vec::new();
                let m = parts.len();
                let mut k: usize = 1;
                while k < m
                    invariant
                        m == parts@.len(),
                        1 <= k <= m,
                        m == words.len(),
                        forall|x: int| 0 <= x < m ==> parts@[x]@ == words[x],
                        arg_views(args@) == words.subrange(1, k as int),
                    decreases m - k,
                {
                    let ghost before = args@;
                    args.push(parts[k].clone());
                    proof {
                        assert(arg_views(args@) =~= arg_views(before).push(parts@[k as int]@));
                        assert(words.subrange(1, k + 1) =~= words.subrange(1, k as int).push(
                            words[k as int],
                        ));
                    }
                    k = k + 1;
                }
                let suggestions = cmd.complete(args.as_slice(), ctx);
                let ghost comps = spec_command_completion(*cmd, arg_views(args@), *ctx);
                let s = suggestions.len();
                let mut out: Vec<String> = Vec::new();
                let mut j: usize = 0;
                while j < s
                    invariant
                        s == suggestions@.len(),
                        j <= s,
                        parts@.len() > 1,
                        parts@[0]@ == words[0],
                        holds_texts(suggestions@, comps),
                        out@.len() == j,
                        forall|x: int| 0 <= x < j ==> #[trigger] out@[x]@ == words[0] + " "@ + comps[x],
                    decreases s - j,
                {
                    let mut line = parts[0].clone();
                    line.append(" ");
                    line.append(suggestions[j].as_str());
                    out.push(line);
                    j = j + 1;
                }
                proof {
                    assert(arg_views(args@) == words.subrange(1, words.len() as int));
                    let want = comps.map_values(|t: Seq<char>| words[0] + " "@ + t);
                    assert forall|x: int| 0 <= x < out@.len() implies #[trigger] out@[x]@ == want[x] by {
                    }
                    assert(holds_texts(out@, want));
                    assert forall|i: int|
                        0 <= i < self@.len() && answers_to(self@[i], words[0]) && (forall|j: int|
                            0 <= j < i ==> !answers_to(self@[j], words[0])) implies self@[i] == *cmd by {
                        let c = choose|c: int|
                            0 <= c < self@.len() && self@[c] == *cmd && answers_to(*cmd, words[0])
                                && forall|j: int| 0 <= j < c ==> !answers_to(self@[j], words[0]);
                        if c < i {
                        } else if i < c {
                        }
                    }
                }
                out
            },
        }
    }
}

/// Every text starts with the empty prefix, so completing from nothing
/// offers every candidate, in order.
pub proof fn lemma_empty_prefix_offers_all(cands: Seq<Seq<char>>)
    ensures
        with_prefix(cands, Seq::empty()) == cands,
    decreases cands.len(),
{
    reveal(Seq::filter);
    if cands.len() > 0 {
        lemma_empty_prefix_offers_all(cands.drop_last());
        assert(cands.last().subrange(0, 0) =~= Seq::<char>::empty());
        assert(seq_starts_with(cands.last(), Seq::empty()));
        assert(cands.drop_last().push(cands.last()) =~= cands);
    }
}

} // verus!
