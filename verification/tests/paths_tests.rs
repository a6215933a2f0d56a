use wt::paths::{join_path, path_is_absolute, resolve_path};

#[test]
fn join_adds_one_separator() {
    assert_eq!(join_path("/repo", "wt"), "/repo/wt");
    assert_eq!(join_path("/repo/", "wt"), "/repo/wt");
    assert_eq!(join_path("", "wt"), "wt");
    assert_eq!(join_path("/repo", ""), "/repo/");
}

#[test]
fn join_with_absolute_replaces() {
    assert_eq!(join_path("/repo", "/tmp/wt"), "/tmp/wt");
}

#[test]
fn absolute_paths_start_with_slash() {
    assert!(path_is_absolute("/x"));
    assert!(!path_is_absolute("x/y"));
    assert!(!path_is_absolute(""));
}

#[test]
fn resolve_keeps_absolute_and_joins_relative() {
    assert_eq!(resolve_path("/home/me/repo", "/srv/worktrees"), "/srv/worktrees");
    assert_eq!(resolve_path("/home/me/repo", "../worktrees"), "/home/me/repo/../worktrees");
    assert_eq!(resolve_path("/home/me/repo", ".worktrees"), "/home/me/repo/.worktrees");
}
