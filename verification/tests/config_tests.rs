use wt::config::{
    CommandStep, Config, ConfigSource, CopyStep, DirEntryInfo, DirListing, LoadedConfig,
    ScriptStep, Step, CONFIG_FILENAME,
};
use wt::process::CommandOutput;

fn config(worktrees_dir: &str, default_branch: &str) -> Config {
    Config {
        worktrees_dir: worktrees_dir.to_string(),
        default_branch: default_branch.to_string(),
        steps: vec![
            Step::Copy(CopyStep { paths: vec![".env".to_string()] }),
            Step::Command(CommandStep { run: "npm install".to_string() }),
            Step::Script(ScriptStep { path: "setup.sh".to_string(), optional: true }),
        ],
    }
}

fn loaded(dir: &str) -> LoadedConfig {
    LoadedConfig {
        config: config(dir, "main"),
        repo_root: "/repo".to_string(),
        worktrees_dir: dir.to_string(),
    }
}

fn entry(name: &str, is_dir: bool) -> DirEntryInfo {
    DirEntryInfo { name: Some(name.to_string()), is_dir }
}

#[test]
fn config_file_name() {
    assert_eq!(CONFIG_FILENAME, ".wt.toml");
}

#[test]
fn slashes_become_hyphens() {
    assert_eq!(LoadedConfig::branch_to_dir_name("josh/fix-bug"), "josh-fix-bug");
    assert_eq!(LoadedConfig::branch_to_dir_name("a/b/c"), "a-b-c");
    assert_eq!(LoadedConfig::branch_to_dir_name("main"), "main");
    assert_eq!(LoadedConfig::branch_to_dir_name(""), "");
}

#[test]
fn dir_name_is_idempotent() {
    let once = LoadedConfig::branch_to_dir_name("feat/x/y");
    assert_eq!(LoadedConfig::branch_to_dir_name(&once), once);
}

#[test]
fn worktree_paths() {
    let l = loaded("/repo/.worktrees");
    assert_eq!(l.worktree_path_for_branch("josh/fix"), "/repo/.worktrees/josh-fix");
    assert_eq!(l.worktree_path_for_name("josh-fix"), "/repo/.worktrees/josh-fix");
    assert_eq!(l.worktree_path_for_branch("plain"), l.worktree_path_for_name("plain"));
}

#[test]
fn load_resolves_relative_worktrees_dir() {
    let l = LoadedConfig::load_from_repo_root(
        "/home/me/repo".to_string(),
        ConfigSource::Parsed(config("../wt", "main")),
    )
    .unwrap();
    assert_eq!(l.repo_root, "/home/me/repo");
    assert_eq!(l.worktrees_dir, "/home/me/repo/../wt");
    assert_eq!(l.config.default_branch, "main");
    assert_eq!(l.config.steps.len(), 3);
}

#[test]
fn load_keeps_absolute_worktrees_dir() {
    let l = LoadedConfig::load_from_repo_root(
        "/home/me/repo".to_string(),
        ConfigSource::Parsed(config("/srv/wt", "main")),
    )
    .unwrap();
    assert_eq!(l.worktrees_dir, "/srv/wt");
}

#[test]
fn load_missing_file() {
    let e = LoadedConfig::load_from_repo_root("/r".to_string(), ConfigSource::Missing).unwrap_err();
    assert_eq!(
        e.message(),
        "no .wt.toml found at repo root (/r). create one to configure wt for this repo."
    );
}

#[test]
fn load_unreadable_and_malformed() {
    let e = LoadedConfig::load_from_repo_root(
        "/r".to_string(),
        ConfigSource::Unreadable("Permission denied (os error 13)".to_string()),
    )
    .unwrap_err();
    assert_eq!(e.message(), "reading /r/.wt.toml: Permission denied (os error 13)");
    assert_eq!(e.headline(), "reading /r/.wt.toml");
    let e = LoadedConfig::load_from_repo_root(
        "/r".to_string(),
        ConfigSource::Malformed("missing field `default_branch`".to_string()),
    )
    .unwrap_err();
    assert_eq!(e.message(), "parsing /r/.wt.toml: missing field `default_branch`");
}

#[test]
fn load_rejects_blank_fields() {
    let e = LoadedConfig::load_from_repo_root(
        "/r".to_string(),
        ConfigSource::Parsed(config("wt", "  ")),
    )
    .unwrap_err();
    assert_eq!(e.message(), "/r/.wt.toml: `default_branch` must be a non-empty branch name");
    let e = LoadedConfig::load_from_repo_root(
        "/r".to_string(),
        ConfigSource::Parsed(config("\t", "main")),
    )
    .unwrap_err();
    assert_eq!(
        e.message(),
        "/r/.wt.toml: `worktrees_dir` must be a non-empty path (relative to repo root)"
    );
}

#[test]
fn load_through_git() {
    let ran = Ok(CommandOutput { code: Some(0), stdout: b"/r\n".to_vec(), stderr: vec![] });
    let l = LoadedConfig::load(&ran, ConfigSource::Parsed(config("wt", "main"))).unwrap();
    assert_eq!(l.worktrees_dir, "/r/wt");
    let ran = Ok(CommandOutput { code: Some(128), stdout: vec![], stderr: b"fatal: nope\n".to_vec() });
    let e = LoadedConfig::load(&ran, ConfigSource::Missing).unwrap_err();
    assert_eq!(e.message(), "git rev-parse --show-toplevel failed: fatal: nope");
}

#[test]
fn list_names_sorted_dirs_only() {
    let l = loaded("/w");
    let names = l
        .list_worktree_names(DirListing::Entries(vec![
            entry("zeta", true),
            entry("file.txt", false),
            entry("Alpha", true),
            entry("alpha", true),
            DirEntryInfo { name: None, is_dir: true },
            entry("beta", true),
        ]))
        .unwrap();
    assert_eq!(names, vec!["Alpha", "alpha", "beta", "zeta"]);
}

#[test]
fn list_names_missing_dir_is_empty() {
    let l = loaded("/w");
    assert!(l.list_worktree_names(DirListing::Missing).unwrap().is_empty());
}

#[test]
fn list_names_errors() {
    let l = loaded("/w");
    let e = l.list_worktree_names(DirListing::Unreadable("denied".to_string())).unwrap_err();
    assert_eq!(e.message(), "reading worktrees dir /w: denied");
    let e = l.list_worktree_names(DirListing::EntryFailed("io".to_string())).unwrap_err();
    assert_eq!(e.message(), "io");
}
