//! The command line: what the program is asked to do.

use vstd::prelude::*;
use crate::text::{seq_starts_with, starts_with, str_eq};

verus! {

/// What the program is asked to do.
#[derive(Debug, Clone, PartialEq, Eq)]
pub enum Command {
    /// Run the application in an environment, optionally rebuilding and
    /// opening the REPL.
    Run { environment: String, rebuild: bool, repl: bool },
    /// Create a plugin from the given arguments (from `create` on).
    PluginCreate { args: Vec<String> },
    /// Create a plugin interactively.
    PluginInteractive,
}

/// The settings of a run after reading the arguments before position `i`
/// (position 0, the program, is not read): environment, rebuild, REPL.
pub open spec fn run_settings(args: Seq<Seq<char>>, i: int) -> (Seq<char>, bool, bool)
    decreases i,
{
    if i <= 1 {
        ("dev"@, false, false)
    } else {
        let (env, rebuild, repl) = run_settings(args, i - 1);
        let a = args[i - 1];
        if a == "--env"@ {
            if i < args.len() {
                (args[i], rebuild, repl)
            } else {
                (env, rebuild, repl)
            }
        } else if a == "--rebuild"@ {
            (env, true, repl)
        } else if a == "--repl"@ {
            (env, rebuild, true)
        } else if !seq_starts_with(a, "--"@) && !repl {
            (a, rebuild, repl)
        } else {
            (env, rebuild, repl)
        }
    }
}

/// The views of a list of strings.
pub open spec fn args_view(v: Seq<String>) -> Seq<Seq<char>> {
    v.map_values(|s: String| s@)
}

/// Read the command line `args` (the program first). `plugin create …`
/// creates a plugin from the arguments from `create` on, any other
/// `plugin …` creates one interactively; otherwise the program runs, in the
/// environment given by `--env <name>` or a bare name (a bare name is ignored
/// once `--repl` has been seen), `dev` by default, rebuilding with
/// `--rebuild` and opening the REPL with `--repl`.
pub fn parse_args(args: &Vec<String>) -> (r: Command)
    ensures
        args@.len() >= 2 && args@[1]@ == "plugin"@ && args@.len() >= 3 && args@[2]@ == "create"@
            ==> (r matches Command::PluginCreate { args: a } && args_view(a@) == args_view(
            args@,
        ).subrange(2, args@.len() as int)),
        args@.len() >= 2 && args@[1]@ == "plugin"@ && !(args@.len() >= 3 && args@[2]@
            == "create"@) ==> r is PluginInteractive,
        !(args@.len() >= 2 && args@[1]@ == "plugin"@) ==> (r matches Command::Run {
            environment,
            rebuild,
            repl,
        } && (environment@, rebuild, repl) == run_settings(args_view(args@), args@.len() as int)),
{
    let n = args.len();
    if n >= 2 && str_eq(args[1].as_str(), "plugin") {
        if n >= 3 && str_eq(args[2].as_str(), "create") {
            let mut rest: Vec<String> = Vec::new();
            let mut k: usize = 2;
            while k < n
                invariant
                    n == args@.len(),
                    2 <= k <= n,
                    args_view(rest@) == args_view(args@).subrange(2, k as int),
                decreases n - k,
            {
                let ghost before = rest@;
                rest.push(args[k].clone());
                assert(args_view(rest@) =~= args_view(args@).subrange(2, k + 1)) by {
                    assert(args_view(rest@) =~= args_view(before).push(args@[k as int]@));
                }
                k = k + 1;
            }
            return Command::PluginCreate { args: rest };
        } else {
            return Command::PluginInteractive;
        }
    }
    let ghost av = args_view(args@);
    let mut environment = String::from_str("dev");
    let mut rebuild = false;
    let mut repl = false;
    let mut i: usize = 1;
    proof {
        reveal_strlit("dev");
    }
    while i < n
        invariant
            n == args@.len(),
            av == args_view(args@),
            1 <= i || n == 0,
            i <= n || n == 0,
            n > 0 ==> (environment@, rebuild, repl) == run_settings(av, i as int),
            n == 0 ==> (environment@, rebuild, repl) == ("dev"@, false, false),
        decreases n - i,
    {
        let a = args[i].as_str();
        proof {
            assert(av[i as int] == a@);
        }
        if str_eq(a, "--env") {
            if i + 1 < n {
                environment = args[i + 1].clone();
            }
        } else if str_eq(a, "--rebuild") {
            rebuild = true;
        } else if str_eq(a, "--repl") {
            repl = true;
        } else {
            if !starts_with(a, "--") && !repl {
                environment = args[i].clone();
            }
        }
        i = i + 1;
    }
    Command::Run { environment, rebuild, repl }
}

} // verus!
