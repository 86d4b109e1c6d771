//! Terminal colors, through the colored crate.

use vstd::prelude::*;
use colored::Colorize;

verus! {

/// The terminal reset code.
pub open spec fn reset_code() -> Seq<char> {
    "\x1b[0m"@
}

/// The code that starts the foreground color `code`.
pub open spec fn style_code(code: Seq<char>) -> Seq<char> {
    "\x1b["@ + code + "m"@
}

/// `s` with `style` put back after every reset code in it, scanning from the
/// left.
pub open spec fn reset_escaped(s: Seq<char>, style: Seq<char>) -> Seq<char>
    decreases s.len(),
{
    if s.len() == 0 {
        Seq::empty()
    } else if s.len() >= 4 && s.subrange(0, 4) == reset_code() {
        reset_code() + style + reset_escaped(s.subrange(4, s.len() as int), style)
    } else {
        seq![s[0]] + reset_escaped(s.subrange(1, s.len() as int), style)
    }
}

/// `s` colored with the foreground color `code`: the color's start, the text
/// with the color put back after each reset inside it, and a reset.
pub open spec fn painted(s: Seq<char>, code: Seq<char>) -> Seq<char> {
    style_code(code) + reset_escaped(s, style_code(code)) + reset_code()
}

/// `r` is `s` as colored shows it in the color `code`: as it is when colored
/// decides not to colorize, else painted.
pub open spec fn shown_in(s: Seq<char>, code: Seq<char>, r: Seq<char>) -> bool {
    r == s || r == painted(s, code)
}

/// Calls colored's `red` and renders the result with `Display`. Whether the
/// codes appear depends on the environment and on colored's override, so
/// the contract admits both outcomes.
#[verifier::external_body]
pub(crate) fn paint_red(s: &str) -> (r: String)
    ensures
        shown_in(s@, "31"@, r@),
{
    s.red().to_string()
}

/// Calls colored's `green` and renders the result with `Display`; as
/// `paint_red`, in green.
#[verifier::external_body]
pub(crate) fn paint_green(s: &str) -> (r: String)
    ensures
        shown_in(s@, "32"@, r@),
{
    s.green().to_string()
}

/// Calls colored's `yellow` and renders the result with `Display`; as
/// `paint_red`, in yellow.
#[verifier::external_body]
pub(crate) fn paint_yellow(s: &str) -> (r: String)
    ensures
        shown_in(s@, "33"@, r@),
{
    s.yellow().to_string()
}

/// Calls colored's `cyan` and renders the result with `Display`; as
/// `paint_red`, in cyan.
#[verifier::external_body]
pub(crate) fn paint_cyan(s: &str) -> (r: String)
    ensures
        shown_in(s@, "36"@, r@),
{
    s.cyan().to_string()
}

/// Calls colored's `bright_green` and renders the result with `Display`; as
/// `paint_red`, in bright green.
#[verifier::external_body]
pub(crate) fn paint_bright_green(s: &str) -> (r: String)
    ensures
        shown_in(s@, "92"@, r@),
{
    s.bright_green().to_string()
}

} // verus!
