//! The prompt composer: gathers the segments in their fixed order and
//! renders each styled run in the dialect of the shell.

use crate::ansi::{
    bold, bold_sequence, foreground, foreground_reset, foreground_reset_sequence,
    foreground_sequence, style_reset, style_reset_sequence,
};
use crate::git::{summary, symbols, Snapshot, Status, StatusView};
use crate::pattern::{capture, captured};
use crate::providers::{PromptPath, PromptPathView};
use crate::shells::Shell;
use crate::text::{as_text, content, pad_left, padded, text_of};
use vstd::prelude::*;
use vstd::utf8::encode_utf8;

verus! {

/// What the composer is told about the session. Every field is `None`
/// where the signal is absent.
pub struct Signals {
    /// The exit status of the last command, as the shell reported it.
    pub last_error: Option<String>,
    /// The value that marks a session over SSH.
    pub ssh_connection: Option<String>,
    /// The name of this host.
    pub hostname: Option<String>,
    /// The directory of the active interpreter environment.
    pub virtual_env: Option<String>,
    /// What was read from the enclosing repository.
    pub repository: Option<Snapshot>,
    /// The canonical working directory.
    pub cwd: Option<String>,
    /// The home directory.
    pub home: Option<String>,
}

/// The host to show: the host's name in a session over SSH, nothing
/// otherwise.
pub open spec fn shown_host(connection: Option<Seq<char>>, hostname: Option<Seq<char>>) -> Option<
    Seq<char>,
> {
    if connection is Some {
        hostname
    } else {
        None
    }
}

/// The name that a search for the environment's name ends with: what was
/// found, or the empty text where nothing was.
pub open spec fn label(found: Option<Seq<char>>) -> Seq<char> {
    match found {
        Some(name) => name,
        None => Seq::empty(),
    }
}

/// The name of the interpreter environment. There is one exactly where the
/// environment marker is present: the component of its directory in front
/// of the last one, as the pattern `([^/]*)/[^/]*$` captures it, or the
/// empty text where the pattern captures nothing.
pub open spec fn environment_name(directory: Option<Seq<char>>) -> Option<Seq<char>> {
    match directory {
        Some(path) => Some(label(captured("([^/]*)/[^/]*$"@, path, 1))),
        None => None,
    }
}

/// The configuration that the prompt displays its path with: `~` for the
/// home directory, `/` between components, inner components shortened.
pub open spec fn prompt_path() -> PromptPathView {
    PromptPathView { home_string: Some("~"@), separator: "/"@, shorten: true }
}

/// The run that switches to the colour of the glyphs.
pub open spec fn accent<S: Shell>(shell: &S) -> Seq<char> {
    shell.escaped(foreground_sequence(0, 192, 124), Seq::empty())
}

/// The run that switches to the colour of the texts.
pub open spec fn ink<S: Shell>(shell: &S) -> Seq<char> {
    shell.escaped(foreground_sequence(3, 97, 188), Seq::empty())
}

/// The run that switches bold text on.
pub open spec fn bold_run<S: Shell>(shell: &S) -> Seq<char> {
    shell.escaped(bold_sequence(), Seq::empty())
}

/// The run that switches all styling off.
pub open spec fn reset_run<S: Shell>(shell: &S) -> Seq<char> {
    shell.escaped(foreground_reset_sequence(), style_reset_sequence())
}

/// Whether the last command failed: a status was reported and it is not
/// the text `0`.
pub open spec fn failed(last_error: Option<Seq<char>>) -> bool {
    match last_error {
        Some(code) => code != seq!['0'],
        None => false,
    }
}

/// The exit-status segment: the failure glyph and the status, padded with
/// underscores to three characters, or the success glyph alone.
pub open spec fn exit_segment<S: Shell>(shell: &S, last_error: Option<Seq<char>>) -> Seq<char> {
    if failed(last_error) {
        accent(shell) + "✘"@ + ink(shell) + padded(last_error.unwrap(), 3, "_"@) + " "@
    } else {
        accent(shell) + "✔"@ + ink(shell) + " "@
    }
}

/// The SSH segment: the link glyph and the host's name.
pub open spec fn host_segment<S: Shell>(shell: &S, host: Option<Seq<char>>) -> Seq<char> {
    match host {
        Some(name) => accent(shell) + "⇆"@ + ink(shell) + name + " "@,
        None => Seq::empty(),
    }
}

/// The interpreter-environment segment: a glyph without a payload, shown
/// where the environment marker is present.
pub open spec fn environment_segment<S: Shell>(shell: &S, present: bool) -> Seq<char> {
    if present {
        accent(shell) + "🐍\u{FE0E}"@ + ink(shell) + " "@
    } else {
        Seq::empty()
    }
}

/// The repository segment: a glyph and the symbol string of the status.
/// Without a status there is no segment.
pub open spec fn repository_segment<S: Shell>(shell: &S, status: Option<StatusView>) -> Seq<char> {
    match status {
        Some(record) => accent(shell) + "🌲\u{FE0E}"@ + ink(shell) + symbols(record) + " "@,
        None => Seq::empty(),
    }
}

/// Everything in front of the path: bold on, then the four optional
/// segments in their order.
pub open spec fn head<S: Shell>(
    shell: &S,
    last_error: Option<Seq<char>>,
    host: Option<Seq<char>>,
    environment: bool,
    status: Option<StatusView>,
) -> Seq<char> {
    bold_run(shell) + exit_segment(shell, last_error) + host_segment(shell, host)
        + environment_segment(shell, environment) + repository_segment(shell, status)
}

/// The line break in front of the path. It is there where the head, as
/// encoded text with its escape sequences, is longer than 80 bytes.
pub open spec fn line_break<S: Shell>(shell: &S, head: Seq<char>) -> Seq<char> {
    if encode_utf8(head).len() > 80 {
        accent(shell) + "\n"@ + ink(shell)
    } else {
        Seq::empty()
    }
}

/// The path, the prompt glyph and the closing reset.
pub open spec fn tail<S: Shell>(shell: &S, path: Seq<char>) -> Seq<char> {
    ink(shell) + path + " "@ + accent(shell) + "∴ "@ + reset_run(shell)
}

/// The whole prompt from its segments.
pub open spec fn composed<S: Shell>(
    shell: &S,
    last_error: Option<Seq<char>>,
    host: Option<Seq<char>>,
    environment: bool,
    status: Option<StatusView>,
    path: Seq<char>,
) -> Seq<char> {
    let head = head(shell, last_error, host, environment, status);
    head + line_break(shell, head) + tail(shell, path)
}

/// The status of the repository in the signals, if there is one.
pub open spec fn repository_status(repository: Option<Snapshot>) -> Option<StatusView> {
    match repository {
        Some(snapshot) => Some(summary(snapshot)),
        None => None,
    }
}

/// The whole prompt from the signals.
pub open spec fn rendered<S: Shell>(shell: &S, signals: Signals) -> Seq<char> {
    composed(
        shell,
        content(signals.last_error),
        shown_host(content(signals.ssh_connection), content(signals.hostname)),
        content(signals.virtual_env) is Some,
        repository_status(signals.repository),
        prompt_path().display(content(signals.cwd), content(signals.home)),
    )
}

/// The host to show in the SSH segment.
pub fn ssh_hostname(connection: Option<&str>, hostname: Option<String>) -> (host: Option<String>)
    ensures
        content(host) == shown_host(text_of(connection), content(hostname)),
{
    match connection {
        Some(_) => hostname,
        None => None,
    }
}

/// The name to go by after the search for it: the text that was found, or
/// the empty text.
pub fn environment_label(found: Option<String>) -> (name: String)
    ensures
        name@ == label(content(found)),
{
    match found {
        Some(name) => name,
        None => String::new(),
    }
}

/// The name of the active interpreter environment, from the directory that
/// the environment marker holds. A present marker always gives a name, an
/// absent one never.
pub fn virtualenv(directory: Option<&str>) -> (name: Option<String>)
    ensures
        name is Some <==> directory is Some,
        content(name) == environment_name(text_of(directory)),
{
    match directory {
        Some(path) => Some(environment_label(capture("([^/]*)/[^/]*$", path, 1))),
        None => None,
    }
}

/// The working directory as the prompt shows it.
pub fn path(cwd: Option<&str>, home: Option<&str>) -> (text: String)
    ensures
        text@ == prompt_path().display(text_of(cwd), text_of(home)),
{
    let config = PromptPath {
        home_string: Some(String::from_str("~")),
        separator: String::from_str("/"),
        shorten: true,
    };
    assert(config@ == prompt_path());
    config.to_string(cwd, home)
}

/// Whether a reported exit status is the text `0`.
fn is_zero(code: &str) -> (yes: bool)
    ensures
        yes == (code@ == seq!['0']),
{
    if code.unicode_len() == 1 {
        let first = code.get_char(0);
        assert(first == '0' <==> code@ =~= seq!['0']);
        first == '0'
    } else {
        false
    }
}

/// Appends the exit-status segment.
fn append_exit<S: Shell>(
    result: &mut String,
    shell: &S,
    fg: &str,
    bg: &str,
    last_error: Option<&str>,
)
    requires
        fg@ == accent(shell),
        bg@ == ink(shell),
    ensures
        final(result)@ == old(result)@ + exit_segment(shell, text_of(last_error)),
{
    let mut failure: Option<&str> = None;
    if let Some(code) = last_error {
        if !is_zero(code) {
            failure = Some(code);
        }
    }
    match failure {
        Some(code) => {
            let number = pad_left(code, 3, "_");
            result.append(fg);
            result.append("✘");
            result.append(bg);
            result.append(number.as_str());
            result.append(" ");
            assert(final(result)@ =~= old(result)@ + (accent(shell) + "✘"@ + ink(shell) + padded(
                code@,
                3,
                "_"@,
            ) + " "@));
        },
        None => {
            result.append(fg);
            result.append("✔");
            result.append(bg);
            result.append(" ");
            assert(final(result)@ =~= old(result)@ + (accent(shell) + "✔"@ + ink(shell) + " "@));
        },
    }
}

/// Appends the SSH segment.
fn append_host<S: Shell>(result: &mut String, shell: &S, fg: &str, bg: &str, host: Option<&str>)
    requires
        fg@ == accent(shell),
        bg@ == ink(shell),
    ensures
        final(result)@ == old(result)@ + host_segment(shell, text_of(host)),
{
    match host {
        Some(name) => {
            result.append(fg);
            result.append("⇆");
            result.append(bg);
            result.append(name);
            result.append(" ");
            assert(final(result)@ =~= old(result)@ + (accent(shell) + "⇆"@ + ink(shell) + name@
                + " "@));
        },
        None => {
            assert(final(result)@ =~= old(result)@ + Seq::<char>::empty());
        },
    }
}

/// Appends the interpreter-environment segment.
fn append_environment<S: Shell>(
    result: &mut String,
    shell: &S,
    fg: &str,
    bg: &str,
    present: bool,
)
    requires
        fg@ == accent(shell),
        bg@ == ink(shell),
    ensures
        final(result)@ == old(result)@ + environment_segment(shell, present),
{
    if present {
        result.append(fg);
        result.append("🐍\u{FE0E}");
        result.append(bg);
        result.append(" ");
        assert(final(result)@ =~= old(result)@ + (accent(shell) + "🐍\u{FE0E}"@ + ink(shell)
            + " "@));
    } else {
        assert(final(result)@ =~= old(result)@ + Seq::<char>::empty());
    }
}

/// The content of an optional record.
pub open spec fn record_of(status: Option<&Status>) -> Option<StatusView> {
    match status {
        Some(record) => Some(record@),
        None => None,
    }
}

/// Appends the repository segment.
fn append_repository<S: Shell>(
    result: &mut String,
    shell: &S,
    fg: &str,
    bg: &str,
    status: Option<&Status>,
)
    requires
        fg@ == accent(shell),
        bg@ == ink(shell),
    ensures
        final(result)@ == old(result)@ + repository_segment(shell, record_of(status)),
{
    match status {
        Some(record) => {
            let marks = crate::git::format(record);
            result.append(fg);
            result.append("🌲\u{FE0E}");
            result.append(bg);
            result.append(marks.as_str());
            result.append(" ");
            assert(final(result)@ =~= old(result)@ + (accent(shell) + "🌲\u{FE0E}"@ + ink(shell)
                + symbols(record@) + " "@));
        },
        None => {
            assert(final(result)@ =~= old(result)@ + Seq::<char>::empty());
        },
    }
}

/// Appends the line break where the text so far is longer than 80 bytes.
fn append_line_break<S: Shell>(result: &mut String, shell: &S, fg: &str, bg: &str)
    requires
        fg@ == accent(shell),
        bg@ == ink(shell),
    ensures
        final(result)@ == old(result)@ + line_break(shell, old(result)@),
{
    if result.as_str().as_bytes().len() > 80 {
        result.append(fg);
        result.append("\n");
        result.append(bg);
        assert(final(result)@ =~= old(result)@ + (accent(shell) + "\n"@ + ink(shell)));
    } else {
        assert(final(result)@ =~= old(result)@ + Seq::<char>::empty());
    }
}

/// Appends the path, the prompt glyph and the closing reset.
fn append_tail<S: Shell>(
    result: &mut String,
    shell: &S,
    fg: &str,
    bg: &str,
    reset: &str,
    path: &str,
)
    requires
        fg@ == accent(shell),
        bg@ == ink(shell),
        reset@ == reset_run(shell),
    ensures
        final(result)@ == old(result)@ + tail(shell, path@),
{
    result.append(bg);
    result.append(path);
    result.append(" ");
    result.append(fg);
    result.append("∴ ");
    result.append(reset);
    assert(final(result)@ =~= old(result)@ + (ink(shell) + path@ + " "@ + accent(shell) + "∴ "@
        + reset_run(shell)));
}

/// Composes the prompt from its segments.
pub fn compose<S: Shell>(
    shell: &S,
    last_error: Option<&str>,
    host: Option<&str>,
    environment: bool,
    status: Option<&Status>,
    path: &str,
) -> (text: String)
    ensures
        text@ == composed(
            shell,
            text_of(last_error),
            text_of(host),
            environment,
            record_of(status),
            path@,
        ),
{
    proof {
        reveal_strlit("");
        assert(""@ =~= Seq::<char>::empty());
    }
    let bold = shell.escape(bold().as_str(), "");
    let reset = shell.escape(foreground_reset().as_str(), style_reset().as_str());
    let fg = shell.escape(foreground(0, 192, 124).as_str(), "");
    let bg = shell.escape(foreground(3, 97, 188).as_str(), "");

    let mut result = String::new();
    result.append(bold.as_str());
    assert(result@ =~= bold_run(shell));
    append_exit(&mut result, shell, fg.as_str(), bg.as_str(), last_error);
    append_host(&mut result, shell, fg.as_str(), bg.as_str(), host);
    append_environment(&mut result, shell, fg.as_str(), bg.as_str(), environment);
    append_repository(&mut result, shell, fg.as_str(), bg.as_str(), status);
    append_line_break(&mut result, shell, fg.as_str(), bg.as_str());
    append_tail(&mut result, shell, fg.as_str(), bg.as_str(), reset.as_str(), path);
    result
}

/// Renders the whole prompt from the signals of the session. Nothing makes
/// it fail: an absent signal leaves its segment out.
pub fn render<S: Shell>(shell: &S, signals: Signals) -> (text: String)
    ensures
        text@ == rendered(shell, signals),
{
    let Signals { last_error, ssh_connection, hostname, virtual_env, repository, cwd, home } =
        signals;
    let host = ssh_hostname(as_text(&ssh_connection), hostname);
    let environment = virtualenv(as_text(&virtual_env));
    let status = match Status::from_cwd(repository) {
        Ok(status) => Some(status),
        Err(_) => None,
    };
    let shown_path = path(as_text(&cwd), as_text(&home));
    compose(
        shell,
        as_text(&last_error),
        as_text(&host),
        environment.is_some(),
        status.as_ref(),
        shown_path.as_str(),
    )
}

/// Where no repository encloses the working directory, the prompt has no
/// repository segment: it is the bold run, the exit-status, SSH and
/// environment segments, the line break that their length asks for, and
/// the tail.
pub proof fn lemma_no_repository_no_segment<S: Shell>(shell: &S, signals: Signals)
    requires
        signals.repository is None,
    ensures
        repository_segment(shell, repository_status(signals.repository)) == Seq::<char>::empty(),
        rendered(shell, signals) == ({
            let front = bold_run(shell) + exit_segment(shell, content(signals.last_error))
                + host_segment(
                shell,
                shown_host(content(signals.ssh_connection), content(signals.hostname)),
            ) + environment_segment(shell, content(signals.virtual_env) is Some);
            front + line_break(shell, front) + tail(
                shell,
                prompt_path().display(content(signals.cwd), content(signals.home)),
            )
        }),
{
    let front = bold_run(shell) + exit_segment(shell, content(signals.last_error)) + host_segment(
        shell,
        shown_host(content(signals.ssh_connection), content(signals.hostname)),
    ) + environment_segment(shell, content(signals.virtual_env) is Some);
    assert(front + Seq::<char>::empty() =~= front);
}

} // verus!
