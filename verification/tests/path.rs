use prompt::composer::path;
use prompt::providers::{join, split_components, PromptPath};

fn config(home_string: Option<&str>, separator: &str, shorten: bool) -> PromptPath {
    PromptPath {
        home_string: home_string.map(|s| s.to_string()),
        separator: separator.to_string(),
        shorten,
    }
}

fn texts(parts: &[&str]) -> Vec<String> {
    parts.iter().map(|s| s.to_string()).collect()
}

#[test]
fn home_relative_and_shortened() {
    let shown = config(Some("~"), "/", true)
        .to_string(Some("/home/alice/projects/app"), Some("/home/alice"));
    assert_eq!(shown, "~/p/app");
    assert_eq!(path(Some("/home/alice/projects/app"), Some("/home/alice")), "~/p/app");
}

#[test]
fn last_component_is_never_cut() {
    let shown = config(Some("~"), "/", true)
        .to_string(Some("/home/alice/work/deeply/nested/directory"), Some("/home/alice"));
    assert_eq!(shown, "~/w/d/n/directory");
    assert!(shown.ends_with("/directory"));
    assert!(shown.starts_with("~/"));
    let outside = config(Some("~"), "/", true).to_string(Some("/usr/local/share"), Some("/home/alice"));
    assert_eq!(outside, "/u/l/share");
    assert!(outside.ends_with("/share"));
    assert!(outside.starts_with("/"));
}

#[test]
fn single_component_is_left_alone() {
    let mut one = texts(&["projects"]);
    PromptPath::shorten_parts(&mut one);
    assert_eq!(one, texts(&["projects"]));
    let mut none: Vec<String> = Vec::new();
    PromptPath::shorten_parts(&mut none);
    assert!(none.is_empty());
    assert_eq!(config(Some("~"), "/", true).to_string(Some("/"), None), "/");
    assert_eq!(config(None, "/", true).to_string(Some("/"), Some("/home/alice")), "/");
}

#[test]
fn shorten_parts_keeps_first_characters() {
    let mut parts = texts(&["/", "home", "alice", "projects", "app"]);
    PromptPath::shorten_parts(&mut parts);
    assert_eq!(parts, texts(&["/", "h", "a", "p", "app"]));
    let mut two = texts(&["first", "second"]);
    PromptPath::shorten_parts(&mut two);
    assert_eq!(two, texts(&["f", "second"]));
}

#[test]
fn shorten_parts_takes_whole_characters() {
    let mut parts = texts(&["ålesund", "日本語", "", "leaf"]);
    PromptPath::shorten_parts(&mut parts);
    assert_eq!(parts, texts(&["å", "日", "", "leaf"]));
}

#[test]
fn unresolved_directory_is_a_bang() {
    assert_eq!(config(Some("~"), "/", true).to_string(None, Some("/home/alice")), "!");
    assert_eq!(config(None, "::", false).to_string(None, None), "!");
    assert_eq!(path(None, None), "!");
}

#[test]
fn home_itself_is_the_marker() {
    assert_eq!(config(Some("~"), "/", true).to_string(Some("/home/alice"), Some("/home/alice")), "~");
    assert_eq!(config(Some("~"), "/", true).to_string(Some("/home/alice/x"), Some("/home/alice")), "~/x");
}

#[test]
fn home_is_compared_by_components() {
    let shown = config(Some("~"), "/", true).to_string(Some("/home/alice2/src"), Some("/home/alice"));
    assert_eq!(shown, "/h/a/src");
    let slashed = config(Some("~"), "/", true).to_string(Some("/home/alice/src"), Some("/home/alice/"));
    assert_eq!(slashed, "~/src");
    let dotted = config(Some("~"), "/", true).to_string(Some("/home/alice/src"), Some("/home/./alice"));
    assert_eq!(dotted, "~/src");
}

#[test]
fn no_marker_or_no_home_shows_the_absolute_path() {
    let unmarked = config(None, "/", true).to_string(Some("/home/alice/projects/app"), Some("/home/alice"));
    assert_eq!(unmarked, "/h/a/p/app");
    let homeless = config(Some("~"), "/", true).to_string(Some("/home/alice/projects/app"), None);
    assert_eq!(homeless, "/h/a/p/app");
}

#[test]
fn without_shortening_components_stay_whole() {
    let shown = config(Some("~"), "/", false)
        .to_string(Some("/home/alice/projects/app"), Some("/home/alice"));
    assert_eq!(shown, "~/projects/app");
    let outside = config(Some("~"), "/", false).to_string(Some("/usr/local/share"), Some("/home/alice"));
    assert_eq!(outside, "/usr/local/share");
}

#[test]
fn separator_and_marker_are_configurable() {
    let shown = config(Some("HOME"), " > ", true)
        .to_string(Some("/home/alice/projects/app"), Some("/home/alice"));
    assert_eq!(shown, "HOME > p > app");
    let outside = config(Some("HOME"), " > ", true).to_string(Some("/usr/local/share"), None);
    assert_eq!(outside, " > u > l > share");
}

#[test]
fn multibyte_components_are_cut_by_character() {
    let shown = config(Some("~"), "/", true)
        .to_string(Some("/home/alice/ålesund/日本語/leaf"), Some("/home/alice"));
    assert_eq!(shown, "~/å/日/leaf");
}

#[test]
fn components_of_paths() {
    assert_eq!(split_components("/home/alice"), texts(&["/", "home", "alice"]));
    assert_eq!(split_components("/"), texts(&["/"]));
    assert_eq!(split_components(""), Vec::<String>::new());
    assert_eq!(split_components("//usr///lib/"), texts(&["/", "usr", "lib"]));
    assert_eq!(split_components("/a/./b/../c"), texts(&["/", "a", "b", "..", "c"]));
    assert_eq!(split_components("./a/./b"), texts(&[".", "a", "b"]));
    assert_eq!(split_components("a/b"), texts(&["a", "b"]));
    assert_eq!(split_components("."), texts(&["."]));
    assert_eq!(split_components("/."), texts(&["/"]));
    assert_eq!(split_components(".hidden/.."), texts(&[".hidden", ".."]));
}

#[test]
fn components_agree_with_std() {
    let samples = [
        "/home/alice", "/", "", "//usr///lib/", "/a/./b/../c", "./a/./b", "a/b", ".", "/.",
        "..", "/home/alice/", "a//b/.", "./.", "/tmp/.x/y.",
    ];
    for sample in samples {
        let expected: Vec<String> = std::path::Path::new(sample)
            .components()
            .map(|part| part.as_os_str().to_str().unwrap().to_string())
            .collect();
        assert_eq!(split_components(sample), expected, "{}", sample);
    }
}

#[test]
fn join_puts_the_separator_between_parts() {
    assert_eq!(join(&texts(&[]), "/"), "");
    assert_eq!(join(&texts(&["a"]), "/"), "a");
    assert_eq!(join(&texts(&["", "a", "b"]), "/"), "/a/b");
    assert_eq!(join(&texts(&["a", "b", "c"]), ", "), "a, b, c");
    assert_eq!(join(&texts(&["a", "", "c"]), "-"), "a--c");
}
