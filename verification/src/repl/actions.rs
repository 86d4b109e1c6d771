//! The decisions behind the REPL commands: what each command shows or does,
//! from plain values that the console hands in.

use vstd::prelude::*;
use crate::repl::commands::{split_words, whitespace_words};
use crate::text::{concat2, contains, seq_contains, str_eq};
use crate::paint::{paint_cyan, paint_green, paint_red, paint_yellow, painted};
use crate::time::{nat_digits, push_digits};
use crate::events::target_site::{debug_quoted, str_debug_form};
use crate::plugins::types::{PluginInfo, PluginLoadResult, PluginStatus};

verus! {

/// An uptime of `t` seconds as days, hours, minutes and seconds, leaving out
/// the leading units that are zero.
pub open spec fn spec_format_duration(t: nat) -> Seq<char> {
    let d = t / 86400;
    let h = (t % 86400) / 3600;
    let m = (t % 3600) / 60;
    let s = t % 60;
    if d > 0 {
        nat_digits(d) + "d "@ + nat_digits(h) + "h "@ + nat_digits(m) + "m "@ + nat_digits(s) + "s"@
    } else if h > 0 {
        nat_digits(h) + "h "@ + nat_digits(m) + "m "@ + nat_digits(s) + "s"@
    } else if m > 0 {
        nat_digits(m) + "m "@ + nat_digits(s) + "s"@
    } else {
        nat_digits(s) + "s"@
    }
}

/// An uptime of `total_secs` seconds in the form `Nd Nh Nm Ns`, `Nh Nm Ns`,
/// `Nm Ns` or `Ns`.
pub fn format_duration(total_secs: u64) -> (r: String)
    ensures
        r@ == spec_format_duration(total_secs as nat),
{
    let d = total_secs / 86400;
    let h = (total_secs % 86400) / 3600;
    let m = (total_secs % 3600) / 60;
    let s = total_secs % 60;
    let mut r = String::new();
    if d > 0 {
        push_digits(d, &mut r);
        r.append("d ");
    }
    if d > 0 || h > 0 {
        push_digits(h, &mut r);
        r.append("h ");
    }
    if d > 0 || h > 0 || m > 0 {
        push_digits(m, &mut r);
        r.append("m ");
    }
    push_digits(s, &mut r);
    r.append("s");
    r
}

/// Where showing the last `lines` of `total` lines starts.
pub fn tail_start(total: usize, lines: usize) -> (r: usize)
    ensures
        r == (if total > lines { total - lines } else { 0 }),
{
    if total > lines {
        total - lines
    } else {
        0
    }
}

/// How a log line is shown.
#[derive(Debug, Clone, Copy, PartialEq, Eq, Structural)]
pub enum LineStyle {
    /// In red: an error.
    Red,
    /// In yellow: a warning.
    Yellow,
    /// Dimmed: debug or trace.
    Dimmed,
    /// As it is.
    Plain,
}

/// How a log line is shown, by the first level tag it holds among
/// `[ERROR]`, `[WARN]`, `[INFO]`, `[DEBUG]`, `[TRACE]`, checked in that order.
pub open spec fn spec_line_style(line: Seq<char>) -> LineStyle {
    if seq_contains(line, "[ERROR]"@) {
        LineStyle::Red
    } else if seq_contains(line, "[WARN]"@) {
        LineStyle::Yellow
    } else if seq_contains(line, "[INFO]"@) {
        LineStyle::Plain
    } else if seq_contains(line, "[DEBUG]"@) || seq_contains(line, "[TRACE]"@) {
        LineStyle::Dimmed
    } else {
        LineStyle::Plain
    }
}

/// How a log line is shown.
pub fn log_line_style(line: &str) -> (r: LineStyle)
    ensures
        r == spec_line_style(line@),
{
    if contains(line, "[ERROR]") {
        LineStyle::Red
    } else if contains(line, "[WARN]") {
        LineStyle::Yellow
    } else if contains(line, "[INFO]") {
        LineStyle::Plain
    } else if contains(line, "[DEBUG]") || contains(line, "[TRACE]") {
        LineStyle::Dimmed
    } else {
        LineStyle::Plain
    }
}

/// What following a log file does after one look at it.
#[derive(Debug, Clone, Copy, PartialEq, Eq, Structural)]
pub enum FollowAction {
    /// Nothing new.
    Nothing,
    /// The file grew: show the lines from this byte offset on.
    ReadFrom(u64),
    /// The file shrank: say it was truncated or rotated.
    Truncated,
}

/// One look at a followed log file: it was `last_size` bytes long and last
/// modified at `last_mod`, and now is `size` bytes, modified at `modified`.
/// Gives the size and time to remember and what to do.
pub open spec fn spec_follow_step(last_size: u64, last_mod: u128, size: u64, modified: u128) -> (
    u64,
    u128,
    FollowAction,
) {
    if modified == last_mod {
        (last_size, last_mod, FollowAction::Nothing)
    } else if size > last_size {
        (size, modified, FollowAction::ReadFrom(last_size))
    } else if size < last_size {
        (size, modified, FollowAction::Truncated)
    } else {
        (last_size, modified, FollowAction::Nothing)
    }
}

/// One look at a followed log file.
pub fn follow_step(last_size: u64, last_mod: u128, size: u64, modified: u128) -> (r: (
    u64,
    u128,
    FollowAction,
))
    ensures
        r == spec_follow_step(last_size, last_mod, size, modified),
{
    if modified == last_mod {
        (last_size, last_mod, FollowAction::Nothing)
    } else if size > last_size {
        (size, modified, FollowAction::ReadFrom(last_size))
    } else if size < last_size {
        (size, modified, FollowAction::Truncated)
    } else {
        (last_size, modified, FollowAction::Nothing)
    }
}


/// What the `plugins` command does with its arguments.
#[derive(Debug, Clone, PartialEq, Eq)]
pub enum PluginsAction {
    /// List the plugins, those matching the filter when one is given.
    List(Option<String>),
    /// Show one plugin.
    Info(String),
    /// Load one plugin.
    Load(String),
    /// Unload one plugin.
    Unload(String),
    /// Reload one plugin.
    Reload(String),
    /// A subcommand that needs a plugin name got none: report it with this
    /// usage line.
    MissingName(String),
}

/// The usage line of the `plugins` subcommand `verb`.
pub open spec fn plugins_usage(verb: Seq<char>) -> Seq<char> {
    "Usage: plugins "@ + verb + " <name>"@
}

/// `r` is what the `plugins` command does with the arguments `args`: nothing
/// given lists all; `list`/`ls` lists, filtered by the second argument when
/// there is one; `info`, `load`, `unload`, `reload` act on the named plugin,
/// or report the missing name; anything else is a filter for the list.
pub open spec fn plugins_action_is(args: Seq<Seq<char>>, r: PluginsAction) -> bool {
    if args.len() == 0 {
        r matches PluginsAction::List(None)
    } else if args[0] == "list"@ || args[0] == "ls"@ {
        if args.len() > 1 {
            r matches PluginsAction::List(Some(f)) && f@ == args[1]
        } else {
            r matches PluginsAction::List(None)
        }
    } else if args[0] == "info"@ || args[0] == "load"@ || args[0] == "unload"@ || args[0]
        == "reload"@ {
        if args.len() < 2 {
            r matches PluginsAction::MissingName(u) && u@ == plugins_usage(args[0])
        } else if args[0] == "info"@ {
            r matches PluginsAction::Info(n) && n@ == args[1]
        } else if args[0] == "load"@ {
            r matches PluginsAction::Load(n) && n@ == args[1]
        } else if args[0] == "unload"@ {
            r matches PluginsAction::Unload(n) && n@ == args[1]
        } else {
            r matches PluginsAction::Reload(n) && n@ == args[1]
        }
    } else {
        r matches PluginsAction::List(Some(f)) && f@ == args[0]
    }
}

/// The texts of the arguments.
pub open spec fn arg_texts(args: Seq<String>) -> Seq<Seq<char>> {
    args.map_values(|a: String| a@)
}

/// What the `plugins` command does with the arguments `args`.
pub fn plugins_action(args: &Vec<String>) -> (r: PluginsAction)
    ensures
        plugins_action_is(arg_texts(args@), r),
{
    let ghost a = arg_texts(args@);
    if args.len() == 0 {
        return PluginsAction::List(None);
    }
    assert(a[0] == args@[0]@);
    let first = args[0].as_str();
    if str_eq(first, "list") || str_eq(first, "ls") {
        if args.len() > 1 {
            assert(a[1] == args@[1]@);
            return PluginsAction::List(Some(args[1].clone()));
        }
        return PluginsAction::List(None);
    }
    let is_info = str_eq(first, "info");
    let is_load = str_eq(first, "load");
    let is_unload = str_eq(first, "unload");
    let is_reload = str_eq(first, "reload");
    if is_info || is_load || is_unload || is_reload {
        if args.len() < 2 {
            let mut u = String::from_str("Usage: plugins ");
            u.append(first);
            u.append(" <name>");
            return PluginsAction::MissingName(u);
        }
        assert(a[1] == args@[1]@);
        let name = args[1].clone();
        if is_info {
            PluginsAction::Info(name)
        } else if is_load {
            PluginsAction::Load(name)
        } else if is_unload {
            PluginsAction::Unload(name)
        } else {
            PluginsAction::Reload(name)
        }
    } else {
        PluginsAction::List(Some(args[0].clone()))
    }
}

/// What the console read.
#[derive(Debug, Clone, PartialEq, Eq)]
pub enum ReplEvent {
    /// Ctrl+C.
    Interrupted,
    /// End of input (Ctrl+D).
    Eof,
    /// Reading failed with this message.
    ReadError(String),
    /// A line of input.
    Line(String),
}

/// What the console does next.
#[derive(Debug, Clone, PartialEq, Eq)]
pub enum ReplAction {
    /// Print an empty line and read on.
    Continue,
    /// Say goodbye and leave.
    Exit,
    /// Report this reading error and read on.
    ReportReadError(String),
    /// Nothing was typed: read on.
    Skip,
    /// Remember the line and run the command `name` with `args`.
    Run { name: String, args: Vec<String> },
}

/// `r` is what the console does after reading `event`: Ctrl+C goes on, end
/// of input leaves, a read error is reported, a blank line is skipped, and
/// any other line runs its first word with the other words as arguments.
pub open spec fn repl_step_is(event: ReplEvent, r: ReplAction) -> bool {
    match event {
        ReplEvent::Interrupted => r matches ReplAction::Continue,
        ReplEvent::Eof => r matches ReplAction::Exit,
        ReplEvent::ReadError(m) => r matches ReplAction::ReportReadError(t) && t@
            == "Error reading input: "@ + m@,
        ReplEvent::Line(l) => {
            let words = whitespace_words(l@);
            if words.len() == 0 {
                r matches ReplAction::Skip
            } else {
                r matches ReplAction::Run { name, args } && name@ == words[0] && arg_texts(args@)
                    == words.subrange(1, words.len() as int)
            }
        },
    }
}

/// What the console does after reading `event`.
pub fn repl_step(event: ReplEvent) -> (r: ReplAction)
    ensures
        repl_step_is(event, r),
{
    match event {
        ReplEvent::Interrupted => ReplAction::Continue,
        ReplEvent::Eof => ReplAction::Exit,
        ReplEvent::ReadError(m) => ReplAction::ReportReadError(
            concat2("Error reading input: ", m.as_str()),
        ),
        ReplEvent::Line(l) => {
            let mut words = split_words(l.as_str());
            if words.len() == 0 {
                return ReplAction::Skip;
            }
            let ghost all = words@;
            let name = words.remove(0);
            assert(arg_texts(words@) =~= whitespace_words(l@).subrange(
                1,
                whitespace_words(l@).len() as int,
            )) by {
                assert(words@ =~= all.subrange(1, all.len() as int));
            }
            ReplAction::Run { name, args: words }
        },
    }
}

/// What the console does after a command ended.
#[derive(Debug, Clone, Copy, PartialEq, Eq, Structural)]
pub enum CommandOutcome {
    /// It succeeded: read on.
    Done,
    /// It failed: show the error and read on.
    ShowError,
    /// It asked to leave.
    Exit,
}

/// What the console does after a command that failed with the message
/// `error`, or succeeded when there is none: a failure whose message holds
/// `Exit REPL` leaves.
pub fn after_command(error: Option<&str>) -> (r: CommandOutcome)
    ensures
        error is None ==> r == CommandOutcome::Done,
        error matches Some(m) ==> r == (if seq_contains(m@, "Exit REPL"@) {
            CommandOutcome::Exit
        } else {
            CommandOutcome::ShowError
        }),
{
    match error {
        None => CommandOutcome::Done,
        Some(m) => if contains(m, "Exit REPL") {
            CommandOutcome::Exit
        } else {
            CommandOutcome::ShowError
        },
    }
}

/// The derived `Debug` text of a plugin state.
pub open spec fn status_debug(s: PluginStatus) -> Seq<char> {
    match s {
        PluginStatus::Unloaded => "Unloaded"@,
        PluginStatus::Loading => "Loading"@,
        PluginStatus::Loaded => "Loaded"@,
        PluginStatus::Error { message } => "Error { message: "@ + str_debug_form(message@) + " }"@,
        PluginStatus::Disabled => "Disabled"@,
    }
}

/// The mark of a plugin state: loaded, failed, or anything else.
pub open spec fn status_mark(s: PluginStatus) -> Seq<char> {
    match s {
        PluginStatus::Loaded => "✓"@,
        PluginStatus::Error { .. } => "✗"@,
        _ => "○"@,
    }
}

/// The color of a plugin state's mark: green, red, or yellow.
pub open spec fn mark_color(s: PluginStatus) -> Seq<char> {
    match s {
        PluginStatus::Loaded => "32"@,
        PluginStatus::Error { .. } => "31"@,
        _ => "33"@,
    }
}

/// What follows the mark on the line of one plugin: name, version and state.
pub open spec fn plugin_line_rest(p: PluginInfo) -> Seq<char> {
    " "@ + p.metadata.name@ + " (v"@ + p.metadata.version@ + ") - "@ + status_debug(p.status)
}

/// `line` is `pre`, then `text` as colored shows it in the color `code`, then
/// `post`.
pub open spec fn line_shows(
    line: Seq<char>,
    pre: Seq<char>,
    text: Seq<char>,
    code: Seq<char>,
    post: Seq<char>,
) -> bool {
    line == pre + text + post || line == pre + painted(text, code) + post
}

/// The plugins that are loaded.
pub open spec fn loaded_plugins(s: Seq<PluginInfo>) -> Seq<PluginInfo> {
    s.filter(|p: PluginInfo| p.status is Loaded)
}

/// The plugins in an error state.
pub open spec fn failed_plugins(s: Seq<PluginInfo>) -> Seq<PluginInfo> {
    s.filter(|p: PluginInfo| p.status is Error)
}

/// How many plugins the status lists one by one: the first five.
pub open spec fn listed_count(s: Seq<PluginInfo>) -> int {
    if s.len() > 5 {
        5
    } else {
        s.len() as int
    }
}

/// `lines` are the plugin part of the status for the records `s`: the
/// number of plugins in cyan, the number active in green, the number failed
/// in red (a green 0 when none failed), then, when there are plugins, the
/// first five, one line each with its mark colored by its state, and how
/// many more there are.
pub open spec fn plugin_status_shown(s: Seq<PluginInfo>, lines: Seq<Seq<char>>) -> bool {
    let n = listed_count(s);
    let failed = failed_plugins(s).len();
    &&& lines.len() == if s.len() == 0 {
        3
    } else if s.len() > 5 {
        n + 5
    } else {
        n + 4
    }
    &&& line_shows(lines[0], "  Plugins:     "@, nat_digits(s.len()) + " loaded"@, "36"@, Seq::empty())
    &&& line_shows(
        lines[1],
        "    ├─ Active:  "@,
        nat_digits(loaded_plugins(s).len()),
        "32"@,
        Seq::empty(),
    )
    &&& if failed > 0 {
        line_shows(lines[2], "    ├─ Errors:  "@, nat_digits(failed), "31"@, Seq::empty())
    } else {
        line_shows(lines[2], "    ├─ Errors:  "@, "0"@, "32"@, Seq::empty())
    }
    &&& s.len() > 0 ==> lines[3] == "    └─ Latest:"@
    &&& forall|k: int|
        4 <= k < 4 + n ==> line_shows(
            #[trigger] lines[k],
            "       "@,
            status_mark(s[k - 4].status),
            mark_color(s[k - 4].status),
            plugin_line_rest(s[k - 4]),
        )
    &&& s.len() > 5 ==> lines[4 + n] == "       ... and "@ + nat_digits((s.len() - 5) as nat) + " more"@
}

/// The derived `Debug` text of a plugin state.
fn status_debug_text(s: &PluginStatus) -> (r: String)
    ensures
        r@ == status_debug(*s),
{
    match s {
        PluginStatus::Unloaded => String::from_str("Unloaded"),
        PluginStatus::Loading => String::from_str("Loading"),
        PluginStatus::Loaded => String::from_str("Loaded"),
        PluginStatus::Error { message } => {
            let q = debug_quoted(message.as_str());
            let mut r = String::from_str("Error { message: ");
            r.append(q.as_str());
            r.append(" }");
            r
        },
        PluginStatus::Disabled => String::from_str("Disabled"),
    }
}

/// The line that lists one plugin, its mark colored by its state.
fn plugin_line_text(p: &PluginInfo) -> (r: String)
    ensures
        line_shows(r@, "       "@, status_mark(p.status), mark_color(p.status), plugin_line_rest(*p)),
{
    let mark = match p.status {
        PluginStatus::Loaded => paint_green("✓"),
        PluginStatus::Error { .. } => paint_red("✗"),
        _ => paint_yellow("○"),
    };
    let mut r = String::from_str("       ");
    r.append(mark.as_str());
    let mut rest = String::from_str(" ");
    rest.append(p.metadata.name.as_str());
    rest.append(" (v");
    rest.append(p.metadata.version.as_str());
    rest.append(") - ");
    let d = status_debug_text(&p.status);
    rest.append(d.as_str());
    r.append(rest.as_str());
    assert(rest@ =~= plugin_line_rest(*p));
    assert(r@ =~= "       "@ + mark@ + rest@);
    r
}

/// `prefix` followed by the decimal digits of `n`.
fn with_count(prefix: &str, n: usize) -> (r: String)
    ensures
        r@ == prefix@ + nat_digits(n as nat),
{
    let mut r = String::from_str(prefix);
    push_digits(n as u64, &mut r);
    r
}

/// `prefix` followed by `text` as colored shows it in the color `code`.
fn shown_after(prefix: &str, text: String, code: &str) -> (r: String)
    requires
        code@ == "31"@ || code@ == "32"@ || code@ == "36"@,
    ensures
        line_shows(r@, prefix@, text@, code@, Seq::empty()),
{
    let painted_text = if str_eq(code, "31") {
        paint_red(text.as_str())
    } else if str_eq(code, "32") {
        paint_green(text.as_str())
    } else {
        paint_cyan(text.as_str())
    };
    let r = concat2(prefix, painted_text.as_str());
    assert(r@ =~= prefix@ + painted_text@ + Seq::<char>::empty());
    assert(prefix@ + text@ + Seq::<char>::empty() =~= prefix@ + text@);
    assert(prefix@ + painted(text@, code@) + Seq::<char>::empty() =~= prefix@ + painted(text@, code@));
    r
}

/// The decimal digits of `n`.
fn digits(n: usize) -> (r: String)
    ensures
        r@ == nat_digits(n as nat),
{
    let mut r = String::new();
    push_digits(n as u64, &mut r);
    r
}

/// The lines of the plugin part of the status for the records `infos`, with
/// the colors colored shows.
pub fn plugin_status_lines(infos: &Vec<PluginInfo>) -> (r: Vec<String>)
    ensures
        plugin_status_shown(infos@, arg_texts(r@)),
{
    let n = infos.len();
    let mut active: usize = 0;
    let mut failed: usize = 0;
    let mut i: usize = 0;
    while i < n
        invariant
            n == infos@.len(),
            i <= n,
            active == loaded_plugins(infos@.subrange(0, i as int)).len(),
            failed == failed_plugins(infos@.subrange(0, i as int)).len(),
            active <= i,
            failed <= i,
        decreases n - i,
    {
        proof {
            let pre = infos@.subrange(0, i as int);
            assert(infos@.subrange(0, i + 1) =~= pre.push(infos@[i as int]));
            pre.lemma_filter_push(infos@[i as int], |p: PluginInfo| p.status is Loaded);
            pre.lemma_filter_push(infos@[i as int], |p: PluginInfo| p.status is Error);
        }
        match infos[i].status {
            PluginStatus::Loaded => {
                active = active + 1;
            },
            PluginStatus::Error { .. } => {
                failed = failed + 1;
            },
            _ => {},
        }
        i = i + 1;
    }
    assert(infos@.subrange(0, n as int) =~= infos@);
    proof {
        reveal_strlit("31");
        reveal_strlit("32");
        reveal_strlit("36");
    }
    let mut total = digits(n);
    total.append(" loaded");
    let mut r: Vec<String> = Vec::new();
    r.push(shown_after("  Plugins:     ", total, "36"));
    r.push(shown_after("    ├─ Active:  ", digits(active), "32"));
    if failed > 0 {
        r.push(shown_after("    ├─ Errors:  ", digits(failed), "31"));
    } else {
        r.push(shown_after("    ├─ Errors:  ", String::from_str("0"), "32"));
    }
    if n == 0 {
        return r;
    }
    r.push(String::from_str("    └─ Latest:"));
    let shown: usize = if n > 5 { 5 } else { n };
    let mut k: usize = 0;
    while k < shown
        invariant
            n == infos@.len(),
            n > 0,
            shown == listed_count(infos@),
            k <= shown,
            r@.len() == 4 + k,
            active == loaded_plugins(infos@).len(),
            failed == failed_plugins(infos@).len(),
            line_shows(r@[0]@, "  Plugins:     "@, nat_digits(infos@.len()) + " loaded"@, "36"@, Seq::empty()),
            line_shows(r@[1]@, "    ├─ Active:  "@, nat_digits(active as nat), "32"@, Seq::empty()),
            failed > 0 ==> line_shows(r@[2]@, "    ├─ Errors:  "@, nat_digits(failed as nat), "31"@, Seq::empty()),
            failed == 0 ==> line_shows(r@[2]@, "    ├─ Errors:  "@, "0"@, "32"@, Seq::empty()),
            r@[3]@ == "    └─ Latest:"@,
            forall|j: int|
                4 <= j < 4 + k ==> line_shows(
                    #[trigger] r@[j]@,
                    "       "@,
                    status_mark(infos@[j - 4].status),
                    mark_color(infos@[j - 4].status),
                    plugin_line_rest(infos@[j - 4]),
                ),
        decreases shown - k,
    {
        let line = plugin_line_text(&infos[k]);
        r.push(line);
        k = k + 1;
    }
    if n > 5 {
        let mut more = with_count("       ... and ", n - 5);
        more.append(" more");
        r.push(more);
    }
    proof {
        let t = arg_texts(r@);
        assert forall|j: int| 0 <= j < r@.len() implies t[j] == r@[j]@ by {}
    }
    r
}

/// What reloading everything came to.
#[derive(Debug, Clone, PartialEq, Eq)]
pub struct ReloadSummary {
    /// Plugins reloaded.
    pub plugins_reloaded: usize,
    /// Adapters reloaded.
    pub adapters_reloaded: usize,
    /// One line per part that reloaded something.
    pub successes: Vec<String>,
    /// One line per failure.
    pub errors: Vec<String>,
    /// The closing line.
    pub summary: String,
}

/// The loads that succeeded.
pub open spec fn succeeded(results: Seq<PluginLoadResult>) -> Seq<PluginLoadResult> {
    results.filter(|r: PluginLoadResult| r.success)
}

/// The error lines of one part of a reload (`what` is `plugins` or
/// `adapters`): the number that failed when some did, or the failure of the
/// whole part.
pub open spec fn part_errors(what: Seq<char>, outcome: Option<Result<(nat, nat), Seq<char>>>) -> Seq<
    Seq<char>,
> {
    match outcome {
        None => Seq::empty(),
        Some(Ok((ok, failed))) => if failed > 0 {
            seq!["  ✗ "@ + nat_digits(failed) + " "@ + what + " failed to reload"@]
        } else {
            Seq::empty()
        },
        Some(Err(e)) => seq!["  ✗ Failed to reload "@ + what + ": "@ + e],
    }
}

/// The success line of one part of a reload (`what` is `plugins` or
/// `adapters`), when it reloaded something.
pub open spec fn part_successes(what: Seq<char>, outcome: Option<Result<(nat, nat), Seq<char>>>) -> Seq<
    Seq<char>,
> {
    match outcome {
        Some(Ok((ok, _))) => if ok > 0 {
            seq!["  ✓ "@ + nat_digits(ok) + " "@ + what + " reloaded"@]
        } else {
            Seq::empty()
        },
        _ => Seq::empty(),
    }
}

/// The number reloaded in one part of a reload.
pub open spec fn part_reloaded(outcome: Option<Result<(nat, nat), Seq<char>>>) -> nat {
    match outcome {
        Some(Ok((ok, _))) => ok,
        _ => 0,
    }
}

/// The plugin part of a reload as counts of successes and failures.
pub open spec fn plugin_part(plugins: Option<Result<Vec<PluginLoadResult>, String>>) -> Option<
    Result<(nat, nat), Seq<char>>,
> {
    match plugins {
        None => None,
        Some(Ok(v)) => Some(
            Ok(
                (
                    succeeded(v@).len(),
                    (v@.len() - succeeded(v@).len()) as nat,
                ),
            ),
        ),
        Some(Err(e)) => Some(Err(e@)),
    }
}

/// The adapter part of a reload as counts of successes and failures.
pub open spec fn adapter_part(adapters: Option<Result<(usize, usize), String>>) -> Option<
    Result<(nat, nat), Seq<char>>,
> {
    match adapters {
        None => None,
        Some(Ok((ok, failed))) => Some(Ok((ok as nat, failed as nat))),
        Some(Err(e)) => Some(Err(e@)),
    }
}

/// `r` sums up reloading everything, when the plugin part gave `plugins`
/// (absent when the plugin system is off) and the adapter part gave
/// `adapters` (successes and failures): the counts reloaded, the error
/// lines, plugins first, and a closing line that gives the counts when
/// nothing failed, else the number of errors.
pub open spec fn reload_summary_is(
    plugins: Option<Result<Vec<PluginLoadResult>, String>>,
    adapters: Option<Result<(usize, usize), String>>,
    r: ReloadSummary,
) -> bool {
    let p = plugin_part(plugins);
    let a = adapter_part(adapters);
    let errors = part_errors("plugins"@, p) + part_errors("adapters"@, a);
    &&& r.plugins_reloaded == part_reloaded(p)
    &&& r.adapters_reloaded == part_reloaded(a)
    &&& arg_texts(r.errors@) == errors
    &&& arg_texts(r.successes@) == part_successes("plugins"@, p) + part_successes("adapters"@, a)
    &&& r.summary@ == if errors.len() == 0 {
        "✓ Reload completed successfully: "@ + nat_digits(part_reloaded(p)) + " plugins, "@
            + nat_digits(part_reloaded(a)) + " adapters"@
    } else {
        "⚠ Reload completed with "@ + nat_digits(errors.len()) + " error(s)"@
    }
}

/// Pushes the error lines of one part of a reload.
fn push_part_errors(errors: &mut Vec<String>, what: &str, ok: usize, failed: Option<usize>, err: Option<&String>)
    requires
        failed is Some != err is Some,
    ensures
        arg_texts(final(errors)@) == arg_texts(old(errors)@) + part_errors(
            what@,
            match (failed, err) {
                (Some(f), _) => Some(Ok((ok as nat, f as nat))),
                (_, Some(e)) => Some(Err(e@)),
                _ => None,
            },
        ),
{
    let ghost before = errors@;
    match (failed, err) {
        (Some(f), _) => {
            if f > 0 {
                let mut line = with_count("  ✗ ", f);
                line.append(" ");
                line.append(what);
                line.append(" failed to reload");
                errors.push(line);
                assert(arg_texts(errors@) =~= arg_texts(before).push(line@));
            } else {
                assert(arg_texts(errors@) =~= arg_texts(before));
            }
        },
        (_, Some(e)) => {
            let mut line = String::from_str("  ✗ Failed to reload ");
            line.append(what);
            line.append(": ");
            line.append(e.as_str());
            errors.push(line);
            assert(arg_texts(errors@) =~= arg_texts(before).push(line@));
        },
        _ => {},
    }
}

/// Pushes the success line of one part of a reload.
fn push_part_success(lines: &mut Vec<String>, what: &str, ok: usize)
    ensures
        arg_texts(final(lines)@) == arg_texts(old(lines)@) + part_successes(
            what@,
            Some(Ok((ok as nat, 0nat))),
        ),
{
    let ghost before = lines@;
    if ok > 0 {
        let mut line = with_count("  ✓ ", ok);
        line.append(" ");
        line.append(what);
        line.append(" reloaded");
        lines.push(line);
        assert(arg_texts(lines@) =~= arg_texts(before).push(line@));
    } else {
        assert(arg_texts(lines@) =~= arg_texts(before));
    }
}

/// The number of loads that succeeded.
fn count_succeeded(results: &Vec<PluginLoadResult>) -> (r: usize)
    ensures
        r == succeeded(results@).len(),
        r <= results@.len(),
{
    let n = results.len();
    let mut c: usize = 0;
    let mut i: usize = 0;
    while i < n
        invariant
            n == results@.len(),
            i <= n,
            c == succeeded(results@.subrange(0, i as int)).len(),
            c <= i,
        decreases n - i,
    {
        proof {
            let pre = results@.subrange(0, i as int);
            assert(results@.subrange(0, i + 1) =~= pre.push(results@[i as int]));
            pre.lemma_filter_push(results@[i as int], |r: PluginLoadResult| r.success);
        }
        if results[i].success {
            c = c + 1;
        }
        i = i + 1;
    }
    assert(results@.subrange(0, n as int) =~= results@);
    c
}

/// Sums up reloading everything from what the plugin part gave (absent when
/// the plugin system is off) and what the adapter part gave (successes and
/// failures).
pub fn reload_summary(
    plugins: Option<Result<Vec<PluginLoadResult>, String>>,
    adapters: Option<Result<(usize, usize), String>>,
) -> (r: ReloadSummary)
    ensures
        reload_summary_is(plugins, adapters, r),
{
    let mut errors: Vec<String> = Vec::new();
    let mut successes: Vec<String> = Vec::new();
    let mut plugins_reloaded: usize = 0;
    let mut adapters_reloaded: usize = 0;
    match &plugins {
        None => {},
        Some(Ok(v)) => {
            plugins_reloaded = count_succeeded(v);
            push_part_success(&mut successes, "plugins", plugins_reloaded);
            push_part_errors(&mut errors, "plugins", plugins_reloaded, Some(v.len() - plugins_reloaded), None);
        },
        Some(Err(e)) => {
            push_part_errors(&mut errors, "plugins", 0, None, Some(e));
        },
    }
    assert(arg_texts(errors@) == part_errors("plugins"@, plugin_part(plugins)));
    assert(plugins_reloaded == part_reloaded(plugin_part(plugins)));
    assert(arg_texts(successes@) == part_successes("plugins"@, plugin_part(plugins)));
    let ghost after_plugins = arg_texts(errors@);
    let ghost successes_after_plugins = arg_texts(successes@);
    match &adapters {
        None => {},
        Some(Ok((ok, failed))) => {
            adapters_reloaded = *ok;
            push_part_success(&mut successes, "adapters", *ok);
            push_part_errors(&mut errors, "adapters", *ok, Some(*failed), None);
        },
        Some(Err(e)) => {
            push_part_errors(&mut errors, "adapters", 0, None, Some(e));
        },
    }
    assert(arg_texts(errors@) == after_plugins + part_errors("adapters"@, adapter_part(adapters)));
    assert(adapters_reloaded == part_reloaded(adapter_part(adapters)));
    assert(arg_texts(successes@) == successes_after_plugins + part_successes(
        "adapters"@,
        adapter_part(adapters),
    ));
    let summary = if errors.len() == 0 {
        let mut t = with_count("✓ Reload completed successfully: ", plugins_reloaded);
        t.append(" plugins, ");
        push_digits(adapters_reloaded as u64, &mut t);
        t.append(" adapters");
        t
    } else {
        let mut t = with_count("⚠ Reload completed with ", errors.len());
        t.append(" error(s)");
        t
    };
    ReloadSummary { plugins_reloaded, adapters_reloaded, successes, errors, summary }
}

/// Whether every character of `s` is a decimal digit.
pub open spec fn all_digits(s: Seq<char>) -> bool {
    forall|i: int| 0 <= i < s.len() ==> '0' <= #[trigger] s[i] <= '9'
}

/// The number the decimal digits `s` write.
pub open spec fn digits_value(s: Seq<char>) -> nat
    decreases s.len(),
{
    if s.len() == 0 {
        0
    } else {
        digits_value(s.drop_last()) * 10 + ((s.last() as int) - ('0' as int)) as nat
    }
}

/// What std's `usize` parsing gives for `s`: an optional `+`, then at least
/// one decimal digit and nothing else, whose number fits in a `usize`.
pub open spec fn spec_parse_usize(s: Seq<char>) -> Option<nat> {
    let d = if s.len() > 0 && s[0] == '+' { s.subrange(1, s.len() as int) } else { s };
    if d.len() > 0 && all_digits(d) && digits_value(d) <= usize::MAX {
        Some(digits_value(d))
    } else {
        None
    }
}

/// A longer run of digits writes a number at least as large.
proof fn lemma_digits_grow(s: Seq<char>, k: int)
    requires
        all_digits(s),
        0 <= k <= s.len(),
    ensures
        digits_value(s.subrange(0, k)) <= digits_value(s),
    decreases s.len() - k,
{
    if k < s.len() {
        lemma_digits_grow(s, k + 1);
        let t = s.subrange(0, k + 1);
        assert(t.drop_last() =~= s.subrange(0, k));
        assert('0' <= t.last() <= '9');
    } else {
        assert(s.subrange(0, k) =~= s);
    }
}

/// Parses `s` as std parses a `usize`.
pub fn parse_usize(s: &str) -> (r: Option<usize>)
    ensures
        match r {
            Some(v) => spec_parse_usize(s@) == Some(v as nat),
            None => spec_parse_usize(s@) is None,
        },
{
    let n = s.unicode_len();
    let mut i: usize = 0;
    if n > 0 && s.get_char(0) == '+' {
        i = 1;
    }
    let ghost from = i as int;
    let ghost d = s@.subrange(from, n as int);
    proof {
        reveal_strlit("+");
        if n > 0 && s@[0] == '+' {
            assert(from == 1);
        } else {
            assert(d =~= s@);
        }
    }
    if i == n {
        return None;
    }
    let mut acc: usize = 0;
    while i < n
        invariant
            n == s@.len(),
            0 <= from <= i <= n,
            d == s@.subrange(from, n as int),
            d == (if s@.len() > 0 && s@[0] == '+' { s@.subrange(1, s@.len() as int) } else { s@ }),
            from < n,
            all_digits(s@.subrange(from, i as int)),
            acc == digits_value(s@.subrange(from, i as int)),
        decreases n - i,
    {
        let c = s.get_char(i);
        let ghost pre = s@.subrange(from, i as int);
        let ghost next = s@.subrange(from, i + 1);
        proof {
            assert(next.drop_last() =~= pre);
            assert(next.last() == c);
        }
        if !('0' <= c && c <= '9') {
            proof {
                assert(d[i - from] == c);
                assert(!all_digits(d));
            }
            return None;
        }
        let digit = (c as u32 - '0' as u32) as usize;
        assert(digits_value(next) == acc * 10 + digit);
        let times = acc.checked_mul(10);
        let sum = match times {
            Some(t) => t.checked_add(digit),
            None => None,
        };
        match sum {
            Some(v) => {
                acc = v;
            },
            None => {
                proof {
                    assert(acc * 10 + digit > usize::MAX);
                    if all_digits(d) {
                        lemma_digits_grow(d, i + 1 - from);
                        assert(d.subrange(0, i + 1 - from) =~= next);
                    }
                }
                return None;
            },
        }
        i = i + 1;
    }
    assert(s@.subrange(from, n as int) =~= d);
    Some(acc)
}

/// What the `logs` command does with its arguments.
#[derive(Debug, Clone, PartialEq, Eq)]
pub enum LogsAction {
    /// Show the last this many lines.
    Show(usize),
    /// Show the last this many lines, then follow the file.
    Follow(usize),
    /// Empty the log file.
    Clear,
    /// An argument it does not know: report it.
    Unknown(String),
}

/// `r` is what the `logs` command does with the arguments `args`: nothing
/// shows 50 lines; `follow`/`f` follows, after the number of lines the next
/// argument gives (50 when it gives none); `clear`/`c` clears; a number shows
/// that many lines; anything else is unknown.
pub open spec fn logs_action_is(args: Seq<Seq<char>>, r: LogsAction) -> bool {
    if args.len() == 0 {
        r == LogsAction::Show(50)
    } else if args[0] == "follow"@ || args[0] == "f"@ {
        r matches LogsAction::Follow(n) && n == if args.len() > 1 {
            match spec_parse_usize(args[1]) {
                Some(v) => v,
                None => 50,
            }
        } else {
            50
        }
    } else if args[0] == "clear"@ || args[0] == "c"@ {
        r == LogsAction::Clear
    } else {
        match spec_parse_usize(args[0]) {
            Some(v) => r matches LogsAction::Show(n) && n == v,
            None => r matches LogsAction::Unknown(a) && a@ == args[0],
        }
    }
}

/// What the `logs` command does with the arguments `args`.
pub fn logs_action(args: &Vec<String>) -> (r: LogsAction)
    ensures
        logs_action_is(arg_texts(args@), r),
{
    let ghost a = arg_texts(args@);
    if args.len() == 0 {
        return LogsAction::Show(50);
    }
    assert(a[0] == args@[0]@);
    let first = args[0].as_str();
    if str_eq(first, "follow") || str_eq(first, "f") {
        if args.len() > 1 {
            assert(a[1] == args@[1]@);
            return match parse_usize(args[1].as_str()) {
                Some(v) => LogsAction::Follow(v),
                None => LogsAction::Follow(50),
            };
        }
        return LogsAction::Follow(50);
    }
    if str_eq(first, "clear") || str_eq(first, "c") {
        return LogsAction::Clear;
    }
    match parse_usize(first) {
        Some(v) => LogsAction::Show(v),
        None => LogsAction::Unknown(args[0].clone()),
    }
}

} // verus!
