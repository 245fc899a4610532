//! The texts that wire the prompt into a shell: the configuration snippet
//! and the sequences that set the terminal's title.

use crate::text::{replace_char, replaced};
use vstd::prelude::*;

verus! {

/// The sequence that opens a terminal title.
pub open spec fn title_open() -> Seq<char> {
    seq!['\u{1b}', ']', '0', ';']
}

/// The character that closes a terminal title.
pub open spec fn title_close() -> Seq<char> {
    seq!['\u{7}']
}

/// The configuration snippet for the executable at `exe`.
pub open spec fn init_text(exe: Seq<char>) -> Seq<char> {
    "\n        PROMPT='$("@ + exe + " prompt --last-error $?)'\n        function preexec { "@
        + exe + " preexec \"$1\" }\n        function precmd { "@ + exe
        + " precmd }\n        typeset -a preexec_functions\n        preexec_functions+=_make_prompt\n        typeset -a precmd_functions\n        precmd_functions+=_make_stop_prompt\n        "@
}

/// The title while a command runs: a dollar sign and the command, with a
/// comma for every ampersand.
pub open spec fn preexec_text(command: Seq<char>) -> Seq<char> {
    title_open() + "$ "@ + replaced(command, '&', ","@) + title_close()
}

/// The title between commands: empty.
pub open spec fn precmd_text() -> Seq<char> {
    title_open() + title_close()
}

/// The shell configuration that calls the executable at `exe` for the
/// prompt and around every command.
pub fn init_script(exe: &str) -> (text: String)
    ensures
        text@ == init_text(exe@),
{
    let mut text = String::from_str("\n        PROMPT='$(");
    text.append(exe);
    text.append(" prompt --last-error $?)'\n        function preexec { ");
    text.append(exe);
    text.append(" preexec \"$1\" }\n        function precmd { ");
    text.append(exe);
    text.append(
        " precmd }\n        typeset -a preexec_functions\n        preexec_functions+=_make_prompt\n        typeset -a precmd_functions\n        precmd_functions+=_make_stop_prompt\n        ",
    );
    text
}

/// The sequence that puts the command about to run into the terminal's
/// title.
pub fn preexec_title(command: &str) -> (text: String)
    ensures
        text@ == preexec_text(command@),
{
    proof {
        reveal_strlit("\u{1b}]0;");
        reveal_strlit("\u{7}");
        assert("\u{1b}]0;"@ =~= title_open());
        assert("\u{7}"@ =~= title_close());
    }
    let shown = replace_char(command, '&', ",");
    let mut text = String::from_str("\u{1b}]0;");
    text.append("$ ");
    text.append(shown.as_str());
    text.append("\u{7}");
    text
}

/// The sequence that clears the terminal's title.
pub fn precmd_title() -> (text: String)
    ensures
        text@ == precmd_text(),
{
    proof {
        reveal_strlit("\u{1b}]0;");
        reveal_strlit("\u{7}");
        assert("\u{1b}]0;"@ =~= title_open());
        assert("\u{7}"@ =~= title_close());
    }
    let mut text = String::from_str("\u{1b}]0;");
    text.append("\u{7}");
    text
}

} // verus!
