//! Shell dialects. A styled run is a style directive and a payload; each
//! dialect has its own way of marking the run so that the shell measures
//! the prompt's width correctly.

use vstd::prelude::*;

verus! {

/// A shell dialect.
pub trait Shell {
    /// The text of a styled run in this dialect.
    spec fn escaped(&self, style: Seq<char>, payload: Seq<char>) -> Seq<char>;

    /// Renders a styled run.
    fn escape(&self, style: &str, payload: &str) -> (text: String)
        ensures
            text@ == self.escaped(style@, payload@),
    ;
}

/// Bash: the run stands between `\[` and `\]`.
pub struct Bash;

/// Zsh: the run stands between `%{` and `%}`.
pub struct Zsh;

/// Fish: the run stands as it is.
pub struct Fish;

impl Shell for Bash {
    open spec fn escaped(&self, style: Seq<char>, payload: Seq<char>) -> Seq<char> {
        "\\["@ + style + payload + "\\]"@
    }

    fn escape(&self, style: &str, payload: &str) -> (text: String) {
        let mut text = String::from_str("\\[");
        text.append(style);
        text.append(payload);
        text.append("\\]");
        text
    }
}

impl Shell for Zsh {
    open spec fn escaped(&self, style: Seq<char>, payload: Seq<char>) -> Seq<char> {
        "%{"@ + style + payload + "%}"@
    }

    fn escape(&self, style: &str, payload: &str) -> (text: String) {
        let mut text = String::from_str("%{");
        text.append(style);
        text.append(payload);
        text.append("%}");
        text
    }
}

impl Shell for Fish {
    open spec fn escaped(&self, style: Seq<char>, payload: Seq<char>) -> Seq<char> {
        style + payload
    }

    fn escape(&self, style: &str, payload: &str) -> (text: String) {
        let mut text = String::from_str(style);
        text.append(payload);
        text
    }
}

/// A styled run bound to a dialect: the shell, the style directive and the
/// payload.
pub struct Style<'a, S: Shell>(pub &'a S, pub &'a str, pub &'a str);

impl<'a, S: Shell> Style<'a, S> {
    /// The text of the run.
    pub open spec fn text(&self) -> Seq<char> {
        self.0.escaped(self.1@, self.2@)
    }

    /// Renders the run in its shell's dialect.
    pub fn to_string(&self) -> (text: String)
        ensures
            text@ == self.text(),
    {
        self.0.escape(self.1, self.2)
    }
}

} // verus!
