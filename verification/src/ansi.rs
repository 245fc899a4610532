//! The terminal control sequences that the prompt uses for its styling.

use crate::text::decimal;
use termion::{color, style};
use vstd::prelude::*;

verus! {

/// The control sequence introducer: escape and an opening bracket.
pub open spec fn csi() -> Seq<char> {
    seq!['\u{1b}', '[']
}

/// The sequence that switches bold text on.
pub open spec fn bold_sequence() -> Seq<char> {
    csi() + "1m"@
}

/// The sequence that switches every text attribute off.
pub open spec fn style_reset_sequence() -> Seq<char> {
    csi() + "m"@
}

/// The sequence that selects the default foreground colour.
pub open spec fn foreground_reset_sequence() -> Seq<char> {
    csi() + "39m"@
}

/// The sequence that selects a true-colour foreground.
pub open spec fn foreground_sequence(red: u8, green: u8, blue: u8) -> Seq<char> {
    csi() + "38;2;"@ + decimal(red as nat) + ";"@ + decimal(green as nat) + ";"@ + decimal(
        blue as nat,
    ) + "m"@
}

/// The text of `termion::style::Bold`. Trusted: termion writes the
/// introducer followed by `1m`.
#[verifier::external_body]
pub(crate) fn bold() -> (text: String)
    ensures
        text@ == bold_sequence(),
{
    format!("{}", style::Bold)
}

/// The text of `termion::style::Reset`. Trusted: termion writes the
/// introducer followed by `m`.
#[verifier::external_body]
pub(crate) fn style_reset() -> (text: String)
    ensures
        text@ == style_reset_sequence(),
{
    format!("{}", style::Reset)
}

/// The text of `termion::color::Fg` around `termion::color::Reset`. Trusted:
/// termion writes the introducer followed by `39m`.
#[verifier::external_body]
pub(crate) fn foreground_reset() -> (text: String)
    ensures
        text@ == foreground_reset_sequence(),
{
    format!("{}", color::Fg(color::Reset))
}

/// The text of `termion::color::Fg` around `termion::color::Rgb`. Trusted:
/// termion writes the introducer, `38;2;`, the three channels in decimal
/// with a semicolon between them, and `m`.
#[verifier::external_body]
pub(crate) fn foreground(red: u8, green: u8, blue: u8) -> (text: String)
    ensures
        text@ == foreground_sequence(red, green, blue),
{
    format!("{}", color::Fg(color::Rgb(red, green, blue)))
}

} // verus!
