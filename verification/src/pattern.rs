//! Capture groups of regular expressions.

use crate::text::content;
use regex::Regex;
use vstd::prelude::*;

verus! {

/// The text that capture group `group` spans in the leftmost match of the
/// regular expression `pattern` in `text`. It is `None` where the pattern
/// does not compile, where it matches nowhere in the text, and where the
/// group takes no part in the match.
pub uninterp spec fn captured(pattern: Seq<char>, text: Seq<char>, group: nat) -> Option<Seq<char>>;

/// Compiles `pattern` with `regex::Regex::new`, searches `text` with
/// `Regex::captures` and hands out, as a text of its own, what
/// `Captures::get` gives for `group`. A pattern that does not compile, a
/// text without a match and a group without a part all come out as `None`.
/// Trusted: the result is the group's text as the regex crate finds it,
/// which depends on the pattern, the text and the group alone; this library
/// names it [`captured`] and does not define it.
#[verifier::external_body]
pub(crate) fn capture(pattern: &str, text: &str, group: usize) -> (found: Option<String>)
    ensures
        content(found) == captured(pattern@, text@, group as nat),
{
    let expression = Regex::new(pattern).ok()?;
    let groups = expression.captures(text)?;
    let part = groups.get(group)?;
    Some(part.as_str().to_string())
}

} // verus!
