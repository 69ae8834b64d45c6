use vstd::prelude::*;

use crate::text::{eq_ascii_folded, eq_ignore_ascii_case, trim_str, trimmed};

verus! {

/// What one line typed at the terminal asks for.
#[derive(Debug, PartialEq, Eq)]
pub enum LineCommand {
    /// Leave the conversation.
    Quit,
    /// Nothing to send.
    Skip,
    /// Send this text.
    Submit(String),
}

/// The command that an already trimmed line stands for: `quit` in any ASCII
/// case ends the session, an empty line is skipped, anything else is sent.
pub fn classify_trimmed(text: &str) -> (r: LineCommand)
    ensures
        eq_ascii_folded(text@, "quit"@) ==> r is Quit,
        !eq_ascii_folded(text@, "quit"@) && text@.len() == 0 ==> r is Skip,
        !eq_ascii_folded(text@, "quit"@) && text@.len() > 0 ==> r is Submit && r->Submit_0@
            == text@,
{
    if eq_ignore_ascii_case(text, "quit") {
        LineCommand::Quit
    } else if text.unicode_len() == 0 {
        LineCommand::Skip
    } else {
        LineCommand::Submit(String::from_str(text))
    }
}

/// The command that a raw terminal line stands for, after trimming it.
pub fn classify_line(line: &str) -> (r: LineCommand)
    ensures
        eq_ascii_folded(trimmed(line@), "quit"@) ==> r is Quit,
        !eq_ascii_folded(trimmed(line@), "quit"@) && trimmed(line@).len() == 0 ==> r is Skip,
        !eq_ascii_folded(trimmed(line@), "quit"@) && trimmed(line@).len() > 0 ==> r is Submit
            && r->Submit_0@ == trimmed(line@),
{
    classify_trimmed(trim_str(line))
}

} // verus!
