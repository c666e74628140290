use taurus::paths::{resolve, resolve_path};

#[test]
fn resolve_path_file() {
    assert_eq!(resolve_path("./file.gmi", false), String::from("./file.gmi"));
}

#[test]
fn resolve_path_dir() {
    assert_eq!(resolve_path("./", true), String::from("./index.gmi"));
}

#[test]
fn resolve_path_dir_without_trailing_slash() {
    assert_eq!(
        resolve_path("/var/www/gemini", true),
        String::from("/var/www/gemini/index.gmi")
    );
}

#[test]
fn resolve_joins_under_root() {
    assert_eq!(
        resolve("/a/b.gmi", "/var/www/gemini"),
        Some(String::from("/var/www/gemini/a/b.gmi"))
    );
}

#[test]
fn resolve_empty_path_yields_root() {
    assert_eq!(resolve("", "/var/www/gemini"), Some(String::from("/var/www/gemini")));
    assert_eq!(resolve("/", "/var/www/gemini"), Some(String::from("/var/www/gemini")));
}

#[test]
fn resolve_root_with_trailing_slash() {
    assert_eq!(
        resolve("/file.gmi", "/srv/"),
        Some(String::from("/srv/file.gmi"))
    );
}

#[test]
fn resolve_refuses_parent_segments() {
    assert_eq!(resolve("/../secret", "/var/www/gemini"), None);
    assert_eq!(resolve("/a/../../b", "/var/www/gemini"), None);
    assert_eq!(resolve("/..", "/var/www/gemini"), None);
    assert_eq!(resolve("/a..b", "/var/www/gemini"), None);
}

#[test]
fn resolve_refuses_absolute_fragments() {
    // The path "//etc/passwd" strips to the rooted fragment "/etc/passwd".
    assert_eq!(resolve("//etc/passwd", "/var/www/gemini"), None);
}

#[test]
fn resolve_keeps_plain_dots() {
    assert_eq!(
        resolve("/notes.v2/file.gmi", "/root1"),
        Some(String::from("/root1/notes.v2/file.gmi"))
    );
}
