use numake::paths::{
    join_path, path_extension, path_file_name, path_is_absolute, path_is_descendant, resolve_path,
};
use numake::text::{lines, split};

#[test]
fn split_keeps_empty_pieces() {
    assert_eq!(split("a=b=c", '='), vec!["a", "b", "c"]);
    assert_eq!(split("", '='), vec![""]);
    assert_eq!(split("=", '='), vec!["", ""]);
    assert_eq!(split("a=", '='), vec!["a", ""]);
    assert_eq!(split("héllo/wörld", '/'), vec!["héllo", "wörld"]);
}

#[test]
fn lines_follow_line_feeds() {
    assert_eq!(lines("a\nb"), vec!["a", "b"]);
    assert_eq!(lines("a\r\nb\r\n"), vec!["a", "b"]);
    assert_eq!(lines("a\n\nb"), vec!["a", "", "b"]);
    assert_eq!(lines("a\n\n"), vec!["a", ""]);
    assert_eq!(lines("a\r"), vec!["a\r"]);
    assert!(lines("").is_empty());
    assert_eq!(lines("\n"), vec![""]);
}

#[test]
fn resolve_handles_dots() {
    assert_eq!(resolve_path("/w/./a/../b"), Some(vec!["w".to_string(), "b".to_string()]));
    assert_eq!(resolve_path("a//b/"), Some(vec!["a".to_string(), "b".to_string()]));
    assert_eq!(resolve_path(""), Some(vec![]));
    assert_eq!(resolve_path("/.."), None);
    assert_eq!(resolve_path("a/../.."), None);
    assert_eq!(resolve_path("a/../../b"), None);
}

#[test]
fn descendant_is_by_components() {
    assert!(path_is_descendant("/w/src/a.c", "/w"));
    assert!(path_is_descendant("/w", "/w"));
    assert!(path_is_descendant("/w/", "/w"));
    assert!(!path_is_descendant("/work/a.c", "/w"));
    assert!(!path_is_descendant("/w/../etc/passwd", "/w"));
    assert!(path_is_descendant("/w/a/../b.c", "/w"));
    assert!(!path_is_descendant("w/a.c", "/w"));
    assert!(!path_is_descendant("/", "/w"));
    assert!(path_is_descendant("out/x", "out"));
    assert!(!path_is_descendant("out/../x", "out"));
}

#[test]
fn join_appends_or_replaces() {
    assert_eq!(join_path("/w", "a/b"), "/w/a/b");
    assert_eq!(join_path("/w/", "a"), "/w/a");
    assert_eq!(join_path("/w", "/etc"), "/etc");
    assert_eq!(join_path("", "a"), "a");
    assert_eq!(join_path("/w", ""), "/w/");
}

#[test]
fn extension_is_after_last_dot() {
    assert_eq!(path_extension("/w/a.tar.gz"), Some("gz".to_string()));
    assert_eq!(path_extension("/w/a."), Some("".to_string()));
    assert_eq!(path_extension("/w/.hidden"), None);
    assert_eq!(path_extension("/w/.hidden.c"), Some("c".to_string()));
    assert_eq!(path_extension("/w.d/a"), None);
    assert_eq!(path_extension(".."), None);
    assert_eq!(path_extension(""), None);
}

#[test]
fn absolute_starts_at_root() {
    assert!(path_is_absolute("/w"));
    assert!(!path_is_absolute("w"));
    assert!(!path_is_absolute(""));
}

#[test]
fn descendant_is_reflexive_and_transitive() {
    for p in ["/w", "w/x", "", "/", "/w/./x/.."] {
        assert!(path_is_descendant(p, p));
    }
    assert!(path_is_descendant("/w/a/b", "/w/a"));
    assert!(path_is_descendant("/w/a", "/w"));
    assert!(path_is_descendant("/w/a/b", "/w"));
}

#[test]
fn file_name_is_the_last_real_segment() {
    assert_eq!(path_file_name("a/b.c"), Some("b.c".to_string()));
    assert_eq!(path_file_name("a/b.c/"), Some("b.c".to_string()));
    assert_eq!(path_file_name("a/b.c/."), Some("b.c".to_string()));
    assert_eq!(path_file_name("a/b.c/.//"), Some("b.c".to_string()));
    assert_eq!(path_file_name("a/b.c/.."), None);
    assert_eq!(path_file_name("/"), None);
    assert_eq!(path_file_name("."), None);
    assert_eq!(path_file_name(""), None);
    assert_eq!(path_extension("a/b.c/"), Some("c".to_string()));
    assert_eq!(path_extension("a/b.c/."), Some("c".to_string()));
    assert_eq!(path_extension("a/b.c/.."), None);
    assert_eq!(path_extension("a.d/b/"), None);
}
