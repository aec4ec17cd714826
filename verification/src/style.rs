//! Colours for what the command prints at its end.

use owo_colors::OwoColorize;
use vstd::prelude::*;

verus! {

/// Text in red: the escape sequence that sets a red foreground, the text, and
/// the sequence that puts the default foreground back.
pub open spec fn red_text(text: Seq<char>) -> Seq<char> {
    "\x1b[31m"@ + text + "\x1b[39m"@
}

/// Text in green, framed like [`red_text`].
pub open spec fn green_text(text: Seq<char>) -> Seq<char> {
    "\x1b[32m"@ + text + "\x1b[39m"@
}

/// Text in bold: the escape sequence that sets bold, the text, and the
/// sequence that resets every attribute.
pub open spec fn bold_text(text: Seq<char>) -> Seq<char> {
    "\x1b[1m"@ + text + "\x1b[0m"@
}

/// What is printed when the uninstall went through.
pub open spec fn success_text() -> Seq<char> {
    bold_text(green_text("Nix was uninstalled successfully!"@)) + "\n"@
}

/// What is printed when the user declined.
pub open spec fn declined_text() -> Seq<char> {
    "Okay, didn't do anything! Bye!"@
}

/// Formats `text` through `OwoColorize::red`.
///
/// Believed of owo-colors: the value that `red` returns displays as the
/// foreground escape of red (`ESC [ 3 1 m`), then the text as it displays by
/// itself, then `ESC [ 3 9 m`, whatever the terminal or the environment.
#[verifier::external_body]
fn red(text: &str) -> (out: String)
    ensures
        out@ == red_text(text@),
{
    format!("{}", text.red())
}

/// Formats `text` through `OwoColorize::green`.
///
/// Believed of owo-colors: as for `red`, with the foreground escape of green
/// (`ESC [ 3 2 m`).
#[verifier::external_body]
fn green(text: &str) -> (out: String)
    ensures
        out@ == green_text(text@),
{
    format!("{}", text.green())
}

/// Formats `text` through `OwoColorize::bold`.
///
/// Believed of owo-colors: the value that `bold` returns displays as
/// `ESC [ 1 m`, then the text as it displays by itself, then `ESC [ 0 m`.
#[verifier::external_body]
fn bold(text: &str) -> (out: String)
    ensures
        out@ == bold_text(text@),
{
    format!("{}", text.bold())
}

/// The line that tells the user about an expected failure.
pub fn failure_report(message: &str) -> (out: String)
    ensures
        out@ == red_text(message@),
{
    red(message)
}

/// The lines that tell the user that the uninstall went through.
pub fn success_report() -> (out: String)
    ensures
        out@ == success_text(),
{
    let painted = green("Nix was uninstalled successfully!");
    let mut out = bold(painted.as_str());
    out.append("\n");
    out
}

/// The line that tells the user that nothing was done.
pub fn declined_report() -> (out: String)
    ensures
        out@ == declined_text(),
{
    String::from_str("Okay, didn't do anything! Bye!")
}

} // verus!
