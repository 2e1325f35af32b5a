//! What the interactive prompt does with one line that the user typed.
use crate::text::{eq_ignore_ascii_case, eq_ignore_case, trim_whitespace, trimmed};
use vstd::prelude::*;
use vstd::string::*;

verus! {

/// The word that ends an interactive session, in any ASCII case.
pub const QUIT_COMMAND: &'static str = "quit";

/// The prompt's reaction to a line of input.
#[derive(Debug, Clone, PartialEq, Eq)]
pub enum InputAction {
    /// End the session.
    Quit,
    /// Nothing was typed: ask again.
    Skip,
    /// Translate this text, the line without surrounding whitespace.
    Translate(String),
}

/// Decides what to do with `line`: a blank line is skipped, the quit word ends
/// the session, anything else is translated once trimmed.
pub fn classify_input(line: &str) -> (r: InputAction)
    ensures
        r is Skip <==> trimmed(line@).len() == 0,
        r is Quit <==> trimmed(line@).len() != 0 && eq_ignore_ascii_case(
            trimmed(line@),
            QUIT_COMMAND@,
        ),
        r matches InputAction::Translate(t) ==> t@ == trimmed(line@),
{
    let t = trim_whitespace(line);
    if t.is_empty() {
        InputAction::Skip
    } else if eq_ignore_case(t, QUIT_COMMAND) {
        InputAction::Quit
    } else {
        InputAction::Translate(String::from_str(t))
    }
}

} // verus!
