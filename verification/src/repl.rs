//! The decision logic of the read-eval-print loop, and the static
//! texts the loop prints.

use vstd::prelude::*;
use vstd::string::*;

verus! {

/// What one read of the terminal produced.
pub enum ReplEvent {
    /// A line was read.
    Line(String),
    /// The user sent an interrupt signal.
    Interrupted,
    /// The input reached its end.
    EndOfInput,
    /// Reading failed for another reason.
    ReadFailure,
}

/// What the loop does next.
#[derive(Debug, PartialEq, Eq)]
pub enum ReplAction {
    /// Read the next line without doing anything.
    Skip,
    /// Record the line in the history and submit it as a prompt.
    Submit(String),
    /// Leave the loop normally.
    Quit,
    /// Report the read failure, then leave the loop.
    QuitWithError,
}

/// Decides what one terminal event leads to: an empty line is a
/// no-op, a non-empty line is submitted, an interrupt or the end of
/// input quits normally, and any other read failure is reported
/// before quitting.
pub fn repl_action(event: ReplEvent) -> (a: ReplAction)
    ensures
        a == (match event {
            ReplEvent::Line(l) => if l@.len() == 0 {
                ReplAction::Skip
            } else {
                ReplAction::Submit(l)
            },
            ReplEvent::Interrupted => ReplAction::Quit,
            ReplEvent::EndOfInput => ReplAction::Quit,
            ReplEvent::ReadFailure => ReplAction::QuitWithError,
        }),
{
    match event {
        ReplEvent::Line(line) => {
            if line.as_str().is_empty() {
                ReplAction::Skip
            } else {
                ReplAction::Submit(line)
            }
        },
        ReplEvent::Interrupted => ReplAction::Quit,
        ReplEvent::EndOfInput => ReplAction::Quit,
        ReplEvent::ReadFailure => ReplAction::QuitWithError,
    }
}

/// The usage message shown when the configuration file is absent.
pub fn ata_message(args: Vec<String>) -> (r: String)
    requires
        args@.len() > 0,
    ensures
        r@ == "Usage: `"@ + args@[0]@
            + " --config=<Path to ata.toml>` or have ata.toml in the current dir."@,
{
    let mut out = String::from_str("Usage: `");
    out.append(args[0].as_str());
    out.append(" --config=<Path to ata.toml>` or have ata.toml in the current dir.");
    out
}

/// The greeting printed when the loop starts.
pub fn greeting() -> (r: &'static str)
    ensures
        r@ == "Ask the Terminal Anything. Type `commands` for a list of commands."@,
{
    "Ask the Terminal Anything. Type `commands` for a list of commands."
}

/// The prompt label shown before each read: the model name and an
/// angle bracket.
pub fn prompt_label(model: &str) -> (r: String)
    ensures
        r@ == model@ + "> "@,
{
    let mut out = String::new();
    out.append(model);
    out.append("> ");
    proof {
        assert(out@ =~= model@ + "> "@);
    }
    out
}

/// The static description of the line editor's keyboard shortcuts.
pub fn shortcuts_text() -> (r: &'static str)
    ensures
        r@ == "CTRL-C: exit.\nCTRL-D: exit.\nCTRL-L: clear the screen.\nUp and down arrows: walk the history.\nCTRL-R: search the history.\n"@,
{
    "CTRL-C: exit.\nCTRL-D: exit.\nCTRL-L: clear the screen.\nUp and down arrows: walk the history.\nCTRL-R: search the history.\n"
}

} // verus!
