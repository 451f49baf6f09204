//! Copying the output of the last command the shell reported to the clipboard.

use vstd::prelude::*;

verus! {

/// What copying the last command's output does.
#[derive(Clone, Debug, PartialEq, Eq)]
pub enum LastOutputStep {
    /// Nothing to copy; the notice says why.
    Notice(String),
    /// Copy this text; a notice confirms it once the clipboard took it.
    Copy(String),
}

/// What copying the last command's output does with what the focused pane's terminal captured:
/// `None` when the shell reports no commands, which takes shell integration; an empty output is
/// not worth copying.
pub fn last_output_step(captured: Option<String>) -> (r: LastOutputStep)
    ensures
        match captured {
            None => r matches LastOutputStep::Notice(m) && m@ == "No last command output (enable shell integration)"@,
            Some(text) => if text@.len() == 0 {
                r matches LastOutputStep::Notice(m) && m@ == "Last command produced no output"@
            } else {
                r == LastOutputStep::Copy(text)
            },
        },
{
    match captured {
        None => LastOutputStep::Notice(String::from_str("No last command output (enable shell integration)")),
        Some(text) => if text.unicode_len() == 0 {
            LastOutputStep::Notice(String::from_str("Last command produced no output"))
        } else {
            LastOutputStep::Copy(text)
        },
    }
}

} // verus!
