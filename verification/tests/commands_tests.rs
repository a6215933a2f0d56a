use wt::cli::{CleanArgs, NewArgs, PathArgs, RmArgs};
use wt::commands::clean::{self, branch_has_qualifying_pr, CleanNext, Cleaning, PrCheck};
use wt::commands::ls::{pr_label, print_table, rich_bits, Row, RichBits};
use wt::commands::new::{self, NewNext};
use wt::commands::path::{self, path_found, PathNext};
use wt::commands::prune::{self, PruneNext};
use wt::commands::rm::{
    self, delete_answered, dir_deleted, dot_git_inspected, remove_worktree, removed, DotGit,
    RemoveKind, RemoveNext, RmNext,
};
use wt::commands::pick_worktree;
use wt::config::{Config, LoadedConfig};
use wt::error::WtError;
use wt::gh::PrSummary;
use wt::ide::{cursor_finished, open_in_cursor, IdeNext};
use wt::process::CommandOutput;

fn loaded() -> LoadedConfig {
    LoadedConfig {
        config: Config {
            worktrees_dir: ".wt".to_string(),
            default_branch: "main".to_string(),
            steps: Vec::new(),
        },
        repo_root: "/repo".to_string(),
        worktrees_dir: "/repo/.wt".to_string(),
    }
}

fn texts(prints: &[wt::repo::Print]) -> Vec<String> {
    prints.iter().map(|p| p.text.clone()).collect()
}

#[test]
fn path_prints_existing_worktree() {
    match path::run(PathArgs { name: "x".to_string() }, Ok(loaded())) {
        PathNext::CheckExists { name, path } => {
            assert_eq!(name, "x");
            assert_eq!(path, "/repo/.wt/x");
        }
        _ => panic!("expected CheckExists"),
    }
    assert_eq!(path_found("x", "/repo/.wt/x".to_string(), true).unwrap().text, "/repo/.wt/x\n");
    let e = path_found("x", "/repo/.wt/x".to_string(), false).unwrap_err();
    assert_eq!(e.message(), "worktree x does not exist at /repo/.wt/x");
}

#[test]
fn prune_runs_git_in_repo_root() {
    match prune::run(Ok(loaded())) {
        PruneNext::Prune { repo_root, args } => {
            assert_eq!(repo_root, "/repo");
            assert_eq!(args, vec!["worktree", "prune"]);
        }
        _ => panic!("expected Prune"),
    }
    let failed = Err(WtError::message_error("no config".to_string()));
    assert!(matches!(prune::run(failed), PruneNext::Done(Err(_))));
}

#[test]
fn qualifying_pull_requests() {
    assert!(matches!(branch_has_qualifying_pr(false, Ok(true)), PrCheck::Decided(true)));
    assert!(matches!(branch_has_qualifying_pr(true, Ok(true)), PrCheck::Decided(true)));
    assert!(matches!(branch_has_qualifying_pr(false, Ok(false)), PrCheck::Decided(false)));
    assert!(matches!(branch_has_qualifying_pr(true, Ok(false)), PrCheck::AskClosed));
    let e = WtError::message_error("gh failed".to_string());
    match branch_has_qualifying_pr(true, Err(e)) {
        PrCheck::Failed(f) => assert_eq!(f.message(), "gh failed"),
        _ => panic!("expected Failed"),
    }
}

#[test]
fn clean_lists_then_fetches() {
    let args = CleanArgs { dry_run: false, yes: false, include_closed: false };
    let step = clean::run(args, Ok(loaded()));
    assert_eq!(texts(&step.prints), vec!["Checking for worktrees with merged branches...\n", "\n"]);
    let (l, a) = match step.next {
        CleanNext::ListWorktrees { loaded, args } => (loaded, args),
        _ => panic!("expected ListWorktrees"),
    };
    let step = clean::listed(l, a, Ok(vec!["a".to_string()]));
    assert_eq!(texts(&step.prints), vec!["Fetching latest from origin...\n"]);
    match step.next {
        CleanNext::Fetch { repo_root, args, state } => {
            assert_eq!(repo_root, "/repo");
            assert_eq!(args, vec!["fetch", "origin", "main", "--quiet"]);
            assert_eq!(state.index, 0);
        }
        _ => panic!("expected Fetch"),
    }
}

#[test]
fn clean_with_no_worktrees() {
    let args = CleanArgs { dry_run: true, yes: true, include_closed: true };
    let step = clean::listed(loaded(), args, Ok(Vec::new()));
    assert_eq!(texts(&step.prints), vec!["No worktrees found in /repo/.wt\n"]);
    assert!(matches!(step.next, CleanNext::Done(Ok(()))));
}

#[test]
fn rm_with_name_and_interactive_is_refused() {
    let args = RmArgs { name: Some("x".to_string()), interactive: true, force: false };
    match rm::run(args, Ok(loaded())) {
        RmNext::Done(Err(e)) => assert_eq!(
            e.message(),
            "cannot pass a worktree name with --interactive; use `wt rm -i` alone"
        ),
        _ => panic!("expected refusal"),
    }
    let args = RmArgs { name: Some("x".to_string()), interactive: false, force: true };
    match rm::run(args, Ok(loaded())) {
        RmNext::CheckExists { name, path, force, .. } => {
            assert_eq!(name, "x");
            assert_eq!(path, "/repo/.wt/x");
            assert!(force);
        }
        _ => panic!("expected CheckExists"),
    }
}

#[test]
fn removal_begins_with_git_worktree_remove() {
    match remove_worktree("/w/x", false, false).next {
        RemoveNext::Run { force, args } => {
            assert!(!force);
            assert_eq!(args, vec!["worktree", "remove", "/w/x"]);
        }
        _ => panic!("expected Run"),
    }
    match remove_worktree("/w/x", false, true).next {
        RemoveNext::Run { force, args } => {
            assert!(force);
            assert_eq!(args, vec!["worktree", "remove", "--force", "/w/x"]);
        }
        _ => panic!("expected Run"),
    }
}

#[test]
fn orphan_with_repository_is_never_deleted() {
    let step = dot_git_inspected("/w/x", true, DotGit::Directory);
    assert!(step.prints.is_empty());
    match step.next {
        RemoveNext::Done(Err(e)) => assert!(e.message().starts_with("refusing to delete /w/x: it contains a `.git` directory")),
        _ => panic!("expected refusal"),
    }
    let step = dot_git_inspected("/w/x", true, DotGit::Absent);
    assert_eq!(
        texts(&step.prints),
        vec!["  (no `.git` inside -- contents are stale files left behind from a prior cleanup)\n"]
    );
    assert!(matches!(step.next, RemoveNext::DeleteDir { ref path } if path == "/w/x"));
    let step = dot_git_inspected("/w/x", false, DotGit::Other);
    assert!(matches!(step.next, RemoveNext::ConfirmDelete { ref prompt } if prompt == "Delete it from disk?"));
}

#[test]
fn orphan_deletion_answers() {
    let step = delete_answered("/w/x", Ok(false));
    assert_eq!(texts(&step.prints), vec!["Removal cancelled.\n"]);
    assert!(matches!(step.next, RemoveNext::Done(Err(ref e)) if e.message() == "cancelled"));
    let step = delete_answered("/w/x", Err("not a terminal".to_string()));
    assert!(matches!(step.next, RemoveNext::Done(Err(ref e)) if e.message() == "prompt failed: not a terminal"));
    let step = dir_deleted("/w/x", Ok(()));
    assert_eq!(texts(&step.prints), vec!["Removed /w/x\n"]);
    assert!(matches!(step.next, RemoveNext::Done(Ok(RemoveKind::Orphan))));
    let step = dir_deleted("/w/x", Err("busy".to_string()));
    assert!(matches!(step.next, RemoveNext::Done(Err(ref e)) if e.message() == "failed to remove orphan directory /w/x: busy"));
}

#[test]
fn orphan_removal_prunes() {
    match removed(loaded(), Ok(RemoveKind::Orphan)) {
        RmNext::Prune { repo_root, args } => {
            assert_eq!(repo_root, "/repo");
            assert_eq!(args, vec!["worktree", "prune"]);
        }
        _ => panic!("expected Prune"),
    }
    assert!(matches!(removed(loaded(), Ok(RemoveKind::Normal)), RmNext::Done(Ok(()))));
}

#[test]
fn new_trims_branch_and_rejects_blank() {
    let step = new::run(NewArgs { branch: "  josh/fix ".to_string(), no_open: true }, Ok(loaded()));
    match step.next {
        NewNext::CheckPath { state } => {
            assert_eq!(state.branch, "josh/fix");
            assert_eq!(state.dir_name, "josh-fix");
            assert_eq!(state.path, "/repo/.wt/josh-fix");
            assert!(state.no_open);
        }
        _ => panic!("expected CheckPath"),
    }
    let step = new::run(NewArgs { branch: " \t".to_string(), no_open: false }, Ok(loaded()));
    assert!(matches!(step.next, NewNext::Done(Err(ref e)) if e.message() == "branch name must not be empty"));
}

#[test]
fn picking_a_worktree() {
    let names = vec!["a".to_string(), "b".to_string()];
    assert_eq!(pick_worktree(&names, &Ok(1)).unwrap(), "b");
    assert_eq!(pick_worktree(&names, &Err("esc".to_string())).unwrap_err().message(), "picker failed: esc");
}

#[test]
fn pull_request_labels() {
    let p = PrSummary { number: 42, state: "MERGED".to_string() };
    assert_eq!(pr_label(&p), "#42 (merged)");
}

#[test]
fn rich_columns() {
    let dirty = Ok(CommandOutput { code: Some(0), stdout: b" M a\n".to_vec(), stderr: vec![] });
    let pr = Ok(CommandOutput {
        code: Some(0),
        stdout: b"[{\"number\":9,\"state\":\"OPEN\"}]".to_vec(),
        stderr: vec![],
    });
    let bits = rich_bits(&dirty, &pr);
    assert!(bits.dirty);
    assert_eq!(bits.pr, Some("#9 (open)".to_string()));
    let bits = rich_bits(&Err("x".to_string()), &Err("y".to_string()));
    assert!(!bits.dirty);
    assert_eq!(bits.pr, None);
}

#[test]
fn plain_table() {
    let rows = vec![
        Row { name: "a".to_string(), branch: "main".to_string(), path: "/w/a".to_string(), rich: None },
        Row { name: "long-name".to_string(), branch: "x".to_string(), path: "/w/l".to_string(), rich: None },
    ];
    assert_eq!(
        texts(&print_table(&rows, false)),
        vec![
            "\x1b[1mNAME     \x1b[0m  \x1b[1mBRANCH\x1b[0m\n",
            "a          main\n",
            "long-name  x\n",
        ]
    );
}

#[test]
fn rich_table() {
    let rows = vec![
        Row {
            name: "a".to_string(),
            branch: "feature/long".to_string(),
            path: "/w/a".to_string(),
            rich: Some(RichBits { dirty: true, pr: Some("#1 (open)".to_string()) }),
        },
        Row { name: "b".to_string(), branch: "x".to_string(), path: "/w/b".to_string(), rich: None },
    ];
    assert_eq!(
        texts(&print_table(&rows, true)),
        vec![
            "\x1b[1mNAME\x1b[0m  \x1b[1mBRANCH      \x1b[0m  \x1b[1mDIRTY  \x1b[0m  \x1b[1mPR\x1b[0m\n",
            "a     feature/long  yes      #1 (open)\n",
            "b     x                      \n",
        ]
    );
}

#[test]
fn ide_launch_or_skip() {
    match open_in_cursor("/w/a", false) {
        IdeNext::Skip { prints } => {
            assert_eq!(
                texts(&prints),
                vec![
                    "warning: `cursor` command not found on PATH; skipping IDE launch.\n",
                    "Worktree at: /w/a\n",
                ]
            );
            assert!(prints[0].to_stderr);
        }
        _ => panic!("expected Skip"),
    }
    match open_in_cursor("/w/a", true) {
        IdeNext::Launch { banner, path } => {
            assert_eq!(banner.text, "Opening worktree in Cursor...\n");
            assert_eq!(path, "/w/a");
        }
        _ => panic!("expected Launch"),
    }
    assert!(cursor_finished("/w/a", &Ok(Some(0))).unwrap().is_empty());
    let warn = cursor_finished("/w/a", &Ok(Some(1))).unwrap();
    assert_eq!(texts(&warn), vec!["warning: cursor exited with status Some(1); worktree at: /w/a\n"]);
    assert_eq!(
        cursor_finished("/w/a", &Err("gone".to_string())).unwrap_err().message(),
        "spawning cursor /w/a: gone"
    );
}

fn cleaning(include_closed: bool) -> Cleaning {
    Cleaning {
        loaded: loaded(),
        args: CleanArgs { dry_run: true, yes: false, include_closed },
        names: vec!["josh-fix".to_string()],
        index: 0,
        candidates: Vec::new(),
        had_errors: false,
    }
}

fn captured(code: i32, stdout: &str) -> Result<CommandOutput, String> {
    Ok(CommandOutput { code: Some(code), stdout: stdout.as_bytes().to_vec(), stderr: vec![] })
}

#[test]
fn clean_warns_in_yellow_when_branch_unknown() {
    let step = clean::branch_found(cleaning(false), &captured(0, "HEAD\n"));
    assert_eq!(step.prints[0].text, "\x1b[33mwarn:\x1b[39m  Skipping josh-fix: cannot determine branch\n");
}

#[test]
fn clean_marks_qualifying_in_green() {
    let step = clean::merged_checked(cleaning(false), "josh/fix".to_string(), &captured(0, "1\tt\tjosh/fix\tMERGED\n"));
    assert_eq!(step.prints[0].text, "  \x1b[32mOK\x1b[39m branch josh/fix qualifies for cleanup\n");
    assert!(step.prints.iter().any(|p| p.text == "--dry-run: not removing anything.\n"));
    assert!(matches!(step.next, CleanNext::Done(Ok(()))));
}

#[test]
fn clean_marks_kept_dimmed() {
    let step = clean::merged_checked(cleaning(false), "josh/fix".to_string(), &captured(0, ""));
    assert_eq!(step.prints[0].text, "  \x1b[2mskip:\x1b[0m branch josh/fix does NOT qualify - keeping\n");
    assert!(step.prints.iter().any(|p| p.text == "No qualifying worktrees found. Nothing to clean up.\n"));
}

#[test]
fn clean_asks_about_closed_when_included() {
    let step = clean::merged_checked(cleaning(true), "josh/fix".to_string(), &captured(0, ""));
    match step.next {
        CleanNext::QueryPr { closed, args, .. } => {
            assert!(closed);
            assert_eq!(args, vec!["pr", "list", "--head", "josh/fix", "--state", "closed"]);
        }
        _ => panic!("expected QueryPr"),
    }
}
