use wt::process::CommandOutput;
use wt::repo::{
    current_branch, current_branch_args, delete_local_branch, is_dirty, local_branch_exists,
    local_branch_exists_args, remote_branch_exists, remote_branch_exists_args, repo_root,
    worktree_add_existing, worktree_add_existing_args, worktree_add_new_no_track,
    worktree_add_new_no_track_args, worktree_prune, worktree_remove, worktree_remove_args,
    RemoveOutcome,
};

fn out(code: Option<i32>, stdout: &str, stderr: &str) -> Result<CommandOutput, String> {
    Ok(CommandOutput { code, stdout: stdout.as_bytes().to_vec(), stderr: stderr.as_bytes().to_vec() })
}

#[test]
fn repo_root_is_trimmed_output() {
    assert_eq!(repo_root(&out(Some(0), "/home/me/repo\n", "")).unwrap(), "/home/me/repo");
}

#[test]
fn repo_root_failure() {
    let e = repo_root(&out(Some(128), "", "fatal: not a git repository\n")).unwrap_err();
    assert_eq!(e.message(), "git rev-parse --show-toplevel failed: fatal: not a git repository");
    let e = repo_root(&Err("boom".to_string())).unwrap_err();
    assert_eq!(e.message(), "spawning git rev-parse --show-toplevel: boom");
}

#[test]
fn branch_probes() {
    assert_eq!(local_branch_exists_args("a/b"), vec!["show-ref", "--verify", "--quiet", "refs/heads/a/b"]);
    assert_eq!(
        remote_branch_exists_args("a/b"),
        vec!["show-ref", "--verify", "--quiet", "refs/remotes/origin/a/b"]
    );
    assert!(local_branch_exists(&Ok(Some(0))));
    assert!(!local_branch_exists(&Ok(Some(1))));
    assert!(!remote_branch_exists(&Ok(None)));
    assert!(!remote_branch_exists(&Err("x".to_string())));
}

#[test]
fn worktree_add_commands() {
    assert_eq!(worktree_add_existing_args("/w/b", "b"), vec!["worktree", "add", "/w/b", "b"]);
    assert_eq!(
        worktree_add_new_no_track_args("/w/b", "b", "main"),
        vec!["worktree", "add", "/w/b", "-b", "b", "--no-track", "origin/main"]
    );
    assert!(worktree_add_existing("/w/b", "b", &Ok(Some(0))).is_ok());
    let e = worktree_add_existing("/w/b", "b", &Ok(Some(128))).unwrap_err();
    assert_eq!(e.message(), "git worktree add /w/b b failed (exit Some(128))");
    let e = worktree_add_new_no_track("/w/b", "b", "main", &Ok(Some(255))).unwrap_err();
    assert_eq!(
        e.message(),
        "git worktree add /w/b -b b --no-track origin/main failed (exit Some(255))"
    );
}

#[test]
fn remove_arguments() {
    assert_eq!(worktree_remove_args("/w/x", false), vec!["worktree", "remove", "/w/x"]);
    assert_eq!(worktree_remove_args("/w/x", true), vec!["worktree", "remove", "--force", "/w/x"]);
}

#[test]
fn remove_success_echoes_output() {
    let rep = worktree_remove("/w/x", false, &out(Some(0), "", "")).unwrap();
    assert!(matches!(rep.outcome, RemoveOutcome::Removed));
    assert!(rep.prints.is_empty());
    let rep = worktree_remove("/w/x", false, &out(Some(0), "a", "b\n")).unwrap();
    assert_eq!(rep.prints.len(), 1);
    assert!(!rep.prints[0].to_stderr);
    assert_eq!(rep.prints[0].text, "ab\n");
}

#[test]
fn remove_classifies_failures() {
    let dirty = "fatal: '/w/x' contains modified or untracked files, use --force to delete it\n";
    let rep = worktree_remove("/w/x", false, &out(Some(128), "", dirty)).unwrap();
    match &rep.outcome {
        RemoveOutcome::NeedsForce(m) => assert_eq!(m, dirty),
        _ => panic!("expected NeedsForce"),
    }
    assert_eq!(rep.prints.len(), 1);
    assert!(rep.prints[0].to_stderr);
    assert_eq!(rep.prints[0].text, dirty.trim_end().to_string() + "\n");

    let orphan = "fatal: '/w/x' is not a working tree\n";
    let rep = worktree_remove("/w/x", false, &out(Some(128), "", orphan)).unwrap();
    assert!(matches!(rep.outcome, RemoveOutcome::Orphan(_)));
    assert!(rep.prints.is_empty());

    let rep = worktree_remove("/w/x", true, &out(Some(1), "note  \n", "boom")).unwrap();
    assert!(matches!(rep.outcome, RemoveOutcome::Other(ref m) if m == "boom"));
    assert_eq!(rep.prints.len(), 2);
    assert_eq!(rep.prints[0].text, "note\n");
    assert!(!rep.prints[0].to_stderr);
    assert_eq!(rep.prints[1].text, "boom\n");
    assert!(rep.prints[1].to_stderr);
}

#[test]
fn remove_spawn_failure() {
    let e = worktree_remove("/w/x", true, &Err("nope".to_string())).err().unwrap();
    assert_eq!(e.message(), "spawning git worktree remove --force /w/x: nope");
}

#[test]
fn current_branch_reads_head() {
    assert_eq!(current_branch_args(), vec!["rev-parse", "--abbrev-ref", "HEAD"]);
    assert_eq!(current_branch(&out(Some(0), "josh/fix\n", "")), Some("josh/fix".to_string()));
    assert_eq!(current_branch(&out(Some(0), "HEAD\n", "")), None);
    assert_eq!(current_branch(&out(Some(0), "  \n", "")), None);
    assert_eq!(current_branch(&out(Some(128), "main\n", "")), None);
    assert_eq!(current_branch(&Err("x".to_string())), None);
}

#[test]
fn dirty_means_any_porcelain_output() {
    assert!(is_dirty(&out(Some(0), " M src/lib.rs\n", "")));
    assert!(!is_dirty(&out(Some(0), "", "")));
    assert!(!is_dirty(&Err("x".to_string())));
}

#[test]
fn delete_branch_errors() {
    assert!(delete_local_branch("b", &out(Some(0), "Deleted branch b", "")).is_ok());
    let e = delete_local_branch("b", &out(Some(1), "", "error: branch 'b' not found.\n")).unwrap_err();
    assert_eq!(e.message(), "git branch -D b failed: error: branch 'b' not found.");
}

#[test]
fn prune_errors() {
    assert!(worktree_prune(&Ok(Some(0))).is_ok());
    let e = worktree_prune(&Ok(Some(1))).unwrap_err();
    assert_eq!(e.message(), "git worktree prune failed (exit Some(1))");
}
