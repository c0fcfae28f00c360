use js_exec::{resolve_specifier, Specifier};

fn path(s: &str) -> Specifier {
    Specifier::Path(s.to_string())
}

#[test]
fn relative_joins_referrer_parent() {
    let r = resolve_specifier("./a.js".to_string(), Some("/proj/main.js"));
    assert_eq!(r, path("/proj/a.js"));
}

#[test]
fn parent_relative_joins_referrer_parent() {
    let r = resolve_specifier("../lib/b.js".to_string(), Some("/proj/src/main.js"));
    assert_eq!(r, path("/proj/src/../lib/b.js"));
}

#[test]
fn relative_without_referrer_joins_working_directory() {
    let r = resolve_specifier("./a.js".to_string(), None);
    assert_eq!(r, path("./a.js"));
    let r = resolve_specifier("../a.js".to_string(), None);
    assert_eq!(r, path("./../a.js"));
}

#[test]
fn relative_with_bare_file_referrer() {
    // The parent of a bare file name is the empty path.
    let r = resolve_specifier("./a.js".to_string(), Some("main.js"));
    assert_eq!(r, path("./a.js"));
}

#[test]
fn relative_with_referrer_without_parent() {
    let r = resolve_specifier("./a.js".to_string(), Some("/"));
    assert_eq!(r, path("./a.js"));
}

#[test]
fn absolute_path_unchanged() {
    let with = resolve_specifier("/abs/x.js".to_string(), Some("/proj/main.js"));
    let without = resolve_specifier("/abs/x.js".to_string(), None);
    assert_eq!(with, path("/abs/x.js"));
    assert_eq!(without, path("/abs/x.js"));
}

#[test]
fn other_strings_are_packages() {
    for raw in ["lodash", ".hidden", "a/./b", "", ".", "..", "pkg/../x"] {
        let r = resolve_specifier(raw.to_string(), Some("/proj/main.js"));
        assert_eq!(r, Specifier::NodeModule(raw.to_string()));
    }
}

#[test]
fn absolute_path_in_normal_form() {
    let r = resolve_specifier("/abs//y/./x.js".to_string(), Some("/proj/main.js"));
    assert_eq!(r, path("/abs/y/x.js"));
    let r = resolve_specifier("/abs/y/".to_string(), None);
    assert_eq!(r, path("/abs/y"));
}

#[test]
fn two_spellings_are_one_specifier() {
    let relative = resolve_specifier("./a.js".to_string(), Some("/proj/main.js"));
    let absolute = resolve_specifier("/proj/a.js".to_string(), None);
    let dotted = resolve_specifier("/proj/./a.js".to_string(), None);
    assert_eq!(relative, absolute);
    assert_eq!(dotted, absolute);
}
