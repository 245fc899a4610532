use prompt::composer::{compose, environment_label, render, ssh_hostname, virtualenv, Signals};
use prompt::git::{Head, HeadCommit, RepositoryState, Snapshot, Status, INDEX_MODIFIED, WT_NEW};
use prompt::shells::{Bash, Fish, Zsh};

const BOLD: &str = "\u{1b}[1m";
const FG: &str = "\u{1b}[38;2;0;192;124m";
const BG: &str = "\u{1b}[38;2;3;97;188m";
const RESET: &str = "\u{1b}[39m\u{1b}[m";

fn quiet() -> Signals {
    Signals {
        last_error: None,
        ssh_connection: None,
        hostname: None,
        virtual_env: None,
        repository: None,
        cwd: Some("/home/alice/projects/app".to_string()),
        home: Some("/home/alice".to_string()),
    }
}

fn main_status() -> Status {
    Status {
        ahead: 0,
        behind: 0,
        new_files: 2,
        working_files: 0,
        index_files: 1,
        stash_count: 0,
        state: RepositoryState::Clean,
        hash: "0123456789abcdef0123456789abcdef01234567".to_string(),
        branch: "main".to_string(),
        tag: String::new(),
    }
}

#[test]
fn success_has_glyph_and_no_number() {
    let zero = compose(&Fish, Some("0"), None, false, None, "~");
    assert_eq!(zero, format!("{BOLD}{FG}✔{BG} {BG}~ {FG}∴ {RESET}"));
    let absent = compose(&Fish, None, None, false, None, "~");
    assert_eq!(absent, zero);
}

#[test]
fn failure_has_glyph_and_padded_number() {
    let two = compose(&Fish, Some("2"), None, false, None, "~");
    assert_eq!(two, format!("{BOLD}{FG}✘{BG}__2 {BG}~ {FG}∴ {RESET}"));
    let wide = compose(&Fish, Some("127"), None, false, None, "~");
    assert_eq!(wide, format!("{BOLD}{FG}✘{BG}127 {BG}~ {FG}∴ {RESET}"));
    let wider = compose(&Fish, Some("1234"), None, false, None, "~");
    assert_eq!(wider, format!("{BOLD}{FG}✘{BG}1234 {BG}~ {FG}∴ {RESET}"));
    let double_zero = compose(&Fish, Some("00"), None, false, None, "~");
    assert_eq!(double_zero, format!("{BOLD}{FG}✘{BG}_00 {BG}~ {FG}∴ {RESET}"));
    let empty = compose(&Fish, Some(""), None, false, None, "~");
    assert_eq!(empty, format!("{BOLD}{FG}✘{BG}___ {BG}~ {FG}∴ {RESET}"));
}

#[test]
fn zsh_prompt_is_marked_run_by_run() {
    let text = compose(&Zsh, Some("2"), None, false, None, "~/p/app");
    assert_eq!(
        text,
        format!("%{{{BOLD}%}}%{{{FG}%}}✘%{{{BG}%}}__2 %{{{BG}%}}~/p/app %{{{FG}%}}∴ %{{{RESET}%}}")
    );
}

#[test]
fn bash_prompt_is_marked_run_by_run() {
    let text = compose(&Bash, None, None, false, None, "/");
    assert_eq!(
        text,
        format!("\\[{BOLD}\\]\\[{FG}\\]✔\\[{BG}\\] \\[{BG}\\]/ \\[{FG}\\]∴ \\[{RESET}\\]")
    );
}

#[test]
fn line_breaks_after_eighty_bytes() {
    let at_limit = compose(&Fish, None, Some("ab"), false, None, "~");
    let head = format!("{BOLD}{FG}✔{BG} {FG}⇆{BG}ab ");
    assert_eq!(head.len(), 80);
    assert_eq!(at_limit, format!("{head}{BG}~ {FG}∴ {RESET}"));
    let over = compose(&Fish, None, Some("abc"), false, None, "~");
    let head = format!("{BOLD}{FG}✔{BG} {FG}⇆{BG}abc ");
    assert_eq!(head.len(), 81);
    assert_eq!(over, format!("{head}{FG}\n{BG}{BG}~ {FG}∴ {RESET}"));
}

#[test]
fn length_is_measured_in_bytes() {
    let text = compose(&Fish, None, Some("é"), false, None, "~");
    let head = format!("{BOLD}{FG}✔{BG} {FG}⇆{BG}é ");
    assert_eq!(head.chars().count(), 75);
    assert_eq!(head.len(), 80);
    assert_eq!(text, format!("{head}{BG}~ {FG}∴ {RESET}"));
    let text = compose(&Fish, None, Some("日"), false, None, "~");
    let head = format!("{BOLD}{FG}✔{BG} {FG}⇆{BG}日 ");
    assert_eq!(head.len(), 81);
    assert_eq!(text, format!("{head}{FG}\n{BG}{BG}~ {FG}∴ {RESET}"));
}

#[test]
fn segments_come_in_fixed_order() {
    let status = main_status();
    let text = compose(&Fish, Some("1"), Some("box"), true, Some(&status), "~/p/app");
    assert_eq!(
        text,
        format!(
            "{BOLD}{FG}✘{BG}__1 {FG}⇆{BG}box {FG}🐍\u{FE0E}{BG} {FG}🌲\u{FE0E}{BG}main□2■1 {FG}\n{BG}{BG}~/p/app {FG}∴ {RESET}"
        )
    );
}

#[test]
fn no_repository_no_segment() {
    let text = render(&Fish, quiet());
    assert_eq!(text, format!("{BOLD}{FG}✔{BG} {BG}~/p/app {FG}∴ {RESET}"));
    assert!(!text.contains("🌲"));
}

#[test]
fn render_gathers_every_signal() {
    let signals = Signals {
        last_error: Some("2".to_string()),
        ssh_connection: Some("10.0.0.1 50000 10.0.0.2 22".to_string()),
        hostname: Some("box".to_string()),
        virtual_env: Some("/home/alice/projects/app/venv".to_string()),
        repository: Some(Snapshot {
            state: RepositoryState::Clean,
            entries: Some(vec![WT_NEW, WT_NEW, INDEX_MODIFIED]),
            head: Some(Head {
                commit: Some(HeadCommit {
                    id: "0123456789abcdef0123456789abcdef01234567".to_string(),
                    tag: None,
                    divergence: None,
                }),
                branch: Some("main".to_string()),
            }),
            stashes: None,
        }),
        cwd: Some("/home/alice/projects/app".to_string()),
        home: Some("/home/alice".to_string()),
    };
    let text = render(&Zsh, signals);
    let fg = format!("%{{{FG}%}}");
    let bg = format!("%{{{BG}%}}");
    assert_eq!(
        text,
        format!(
            "%{{{BOLD}%}}{fg}✘{bg}__2 {fg}⇆{bg}box {fg}🐍\u{FE0E}{bg} {fg}🌲\u{FE0E}{bg}main□2■1 {fg}\n{bg}{bg}~/p/app {fg}∴ %{{{RESET}%}}"
        )
    );
}

#[test]
fn render_without_signals_still_renders() {
    let signals = Signals {
        last_error: None,
        ssh_connection: None,
        hostname: None,
        virtual_env: None,
        repository: None,
        cwd: None,
        home: None,
    };
    assert_eq!(render(&Fish, signals), format!("{BOLD}{FG}✔{BG} {BG}! {FG}∴ {RESET}"));
}

#[test]
fn hostname_needs_an_ssh_session() {
    let mut signals = quiet();
    signals.hostname = Some("box".to_string());
    assert_eq!(render(&Fish, signals), format!("{BOLD}{FG}✔{BG} {BG}~/p/app {FG}∴ {RESET}"));
    let mut signals = quiet();
    signals.ssh_connection = Some("".to_string());
    assert_eq!(render(&Fish, signals), format!("{BOLD}{FG}✔{BG} {BG}~/p/app {FG}∴ {RESET}"));
    let mut signals = quiet();
    signals.ssh_connection = Some("".to_string());
    signals.hostname = Some("b".to_string());
    assert_eq!(
        render(&Fish, signals),
        format!("{BOLD}{FG}✔{BG} {FG}⇆{BG}b {BG}~/p/app {FG}∴ {RESET}")
    );
}

#[test]
fn ssh_hostname_gates_on_the_connection() {
    assert_eq!(ssh_hostname(Some("c"), Some("box".to_string())), Some("box".to_string()));
    assert_eq!(ssh_hostname(None, Some("box".to_string())), None);
    assert_eq!(ssh_hostname(Some("c"), None), None);
    assert_eq!(ssh_hostname(None, None), None);
}

#[test]
fn virtualenv_takes_the_parent_directory() {
    assert_eq!(virtualenv(Some("/home/alice/proj/.venv")), Some("proj".to_string()));
    assert_eq!(virtualenv(Some("/home/alice/projects/app/venv")), Some("app".to_string()));
    assert_eq!(virtualenv(Some("/venv")), Some("".to_string()));
    assert_eq!(virtualenv(Some("app/venv/")), Some("venv".to_string()));
    assert_eq!(virtualenv(Some("relative/env")), Some("relative".to_string()));
}

#[test]
fn virtualenv_has_a_name_for_every_present_marker() {
    assert_eq!(virtualenv(Some("noslash")), Some("".to_string()));
    assert_eq!(virtualenv(Some("")), Some("".to_string()));
    assert_eq!(virtualenv(Some("/")), Some("".to_string()));
    assert_eq!(virtualenv(Some("a\nb")), Some("".to_string()));
    assert_eq!(virtualenv(None), None);
}

#[test]
fn environment_label_falls_back_to_the_empty_text() {
    assert_eq!(environment_label(Some("proj".to_string())), "proj");
    assert_eq!(environment_label(Some("".to_string())), "");
    assert_eq!(environment_label(None), "");
}

#[test]
fn environment_segment_follows_the_marker() {
    let with_parent = format!("{BOLD}{FG}✔{BG} {FG}🐍\u{FE0E}{BG} {FG}\n{BG}{BG}~/p/app {FG}∴ {RESET}");
    let mut signals = quiet();
    signals.virtual_env = Some("/home/alice/envs/tools".to_string());
    assert_eq!(render(&Fish, signals), with_parent);
    let mut signals = quiet();
    signals.virtual_env = Some("tools".to_string());
    assert_eq!(render(&Fish, signals), with_parent);
    let mut signals = quiet();
    signals.virtual_env = Some("".to_string());
    assert_eq!(render(&Fish, signals), with_parent);
    let text = render(&Fish, quiet());
    assert_eq!(text, format!("{BOLD}{FG}✔{BG} {BG}~/p/app {FG}∴ {RESET}"));
    assert!(!text.contains("🐍"));
}

#[test]
fn styling_is_what_termion_writes() {
    let text = compose(&Fish, None, None, false, None, "");
    assert!(text.starts_with(&format!("{}", termion::style::Bold)));
    assert!(text.ends_with(&format!(
        "{}{}",
        termion::color::Fg(termion::color::Reset),
        termion::style::Reset
    )));
    assert!(text.contains(&format!("{}", termion::color::Fg(termion::color::Rgb(0, 192, 124)))));
    assert!(text.contains(&format!("{}", termion::color::Fg(termion::color::Rgb(3, 97, 188)))));
}
