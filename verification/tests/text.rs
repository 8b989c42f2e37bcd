use waystone::text::{path_join, toml_escape};

#[test]
fn toml_escape_escapes_backslashes_and_quotes() {
    assert_eq!(toml_escape("a\\b\"c"), "a\\\\b\\\"c");
    assert_eq!(toml_escape("plain"), "plain");
}

#[test]
fn path_join_follows_path_semantics() {
    assert_eq!(path_join("root", "child"), "root/child");
    assert_eq!(path_join("root/", "child"), "root/child");
    assert_eq!(path_join("root", "/abs"), "/abs");
    assert_eq!(path_join("", "child"), "child");
}
