//! `wt rm`: remove a worktree by name, by picking one, or several picked at
//! once; with the handling of dirty worktrees and of orphan directories.

use vstd::prelude::*;

use crate::cli::RmArgs;
use crate::commands::{
    blank_line, error_with, line, no_such_worktree, no_such_worktree_error, pick_worktree,
    pick_worktree_choices, picker_failed, print_line, prompt_failed, say, worktree_path, Answer,
    Picked,
};
use crate::config::LoadedConfig;
use crate::error::{ErrorView, WtError};
use crate::paths::{join, join_path};
use crate::process::{views, Captured, Finished};
use crate::repo::{
    branch_or_detached, print_views, shown_branch, worktree_prune, worktree_prune_args,
    worktree_remove_args, OutcomeView, Print, RemoveOutcome, RemoveReport,
};
use crate::text::{owned, push_decimal, push_str, trim, trim_str, decimal};

verus! {

/// How a worktree went away.
#[derive(Debug, Clone, Copy)]
pub enum RemoveKind {
    /// git removed it.
    Normal,
    /// It was an orphan directory, deleted from disk.
    Orphan,
}

/// What the removal of one worktree does next.
pub enum RemoveNext {
    /// Run `git <args>` in the repository root with output captured; pass
    /// `repo::worktree_remove` of it to `removal_reported` (with `force`).
    Run { force: bool, args: Vec<String> },
    /// Ask `prompt` (default no); pass the answer to `force_answered`.
    ConfirmForce { prompt: String },
    /// Run `git <args>` in the repository root with output captured; pass
    /// `repo::worktree_remove` of it to `forced_reported`.
    RunForced { args: Vec<String> },
    /// Find out what `dot_git` is (without following links); pass that to
    /// `dot_git_inspected` (with `force`).
    InspectDotGit { dot_git: String, force: bool },
    /// Ask `prompt` (default no); pass the answer to `delete_answered`.
    ConfirmDelete { prompt: String },
    /// Delete the directory `path` recursively; pass the outcome to
    /// `dir_deleted`.
    DeleteDir { path: String },
    /// The removal is over.
    Done(Result<RemoveKind, WtError>),
}

/// What to print, then what to do.
pub struct RemoveStep {
    pub prints: Vec<Print>,
    pub next: RemoveNext,
}

/// What the `.git` entry of an orphan directory is.
pub enum DotGit {
    /// A directory: the directory is a repository of its own.
    Directory,
    /// Something else (a `.git` file of a worktree whose record is gone).
    Other,
    /// Nothing (or it cannot be inspected).
    Absent,
}

/// The removal ends with error `e`.
pub open spec fn fails_with(next: RemoveNext, e: ErrorView) -> bool {
    next matches RemoveNext::Done(d) && d is Err && d->Err_0@ == e
}

/// The removal ends with the worktree gone the way `kind` says.
pub open spec fn finishes(next: RemoveNext, kind: RemoveKind) -> bool {
    next matches RemoveNext::Done(d) && d is Ok && d->Ok_0 == kind
}

/// The error when git will not remove a worktree even with `--force`.
pub open spec fn refused_even_forced(path: Seq<char>) -> ErrorView {
    ErrorView::Message { text: "git refused to remove "@ + path + " even with --force"@ }
}

/// The error of a removal the user declined.
pub open spec fn cancelled() -> ErrorView {
    ErrorView::Message { text: "cancelled"@ }
}

/// The line that introduces an orphan directory.
pub open spec fn orphan_notice(path: Seq<char>) -> Seq<char> {
    path + " is an orphan directory (git has no record of it as a worktree)."@
}

/// The error for an orphan directory that holds a repository of its own.
pub open spec fn refusing_repository(path: Seq<char>) -> ErrorView {
    ErrorView::Message {
        text: "refusing to delete "@ + path
            + ": it contains a `.git` directory, which means it's a separate git repository, not a stale worktree. delete it manually if that's really what you want."@,
    }
}

/// The note for an orphan directory with a `.git` file.
pub open spec fn dot_git_file_note() -> Seq<char> {
    "  (it has a `.git` file pointing to a missing admin record -- still safe to remove)"@
}

/// The note for an orphan directory without a `.git`.
pub open spec fn no_dot_git_note() -> Seq<char> {
    "  (no `.git` inside -- contents are stale files left behind from a prior cleanup)"@
}

/// The removal of the worktree at `path` begins: `git worktree remove`,
/// with `--force` when asked for or when removing in a batch.
pub fn remove_worktree(path: &str, force: bool, batch: bool) -> (r: RemoveStep)
    ensures
        r.prints@.len() == 0,
        r.next matches RemoveNext::Run { force: f, args } && f == (force || batch) && views(
            args@,
        ) == (if force || batch {
            seq!["worktree"@, "remove"@, "--force"@, path@]
        } else {
            seq!["worktree"@, "remove"@, path@]
        }),
{
    let effective = force || batch;
    RemoveStep {
        prints: Vec::new(),
        next: RemoveNext::Run { force: effective, args: worktree_remove_args(path, effective) },
    }
}

fn done(prints: Vec<Print>, result: Result<RemoveKind, WtError>) -> (r: RemoveStep)
    ensures
        r.prints == prints,
        r.next matches RemoveNext::Done(d) && d == result,
{
    RemoveStep { prints, next: RemoveNext::Done(result) }
}

/// What follows the first `git worktree remove` of `path` (run with `force`
/// as `remove_worktree` chose), given what it reported: finished when it
/// removed the worktree; a refusal when it still wants `--force` although
/// that was given; a question whether to force it otherwise; the orphan
/// handling when git does not know the directory; a failure for anything
/// else. Git's own output is echoed first.
pub fn removal_reported(path: &str, force: bool, report: Result<RemoveReport, WtError>) -> (r:
    RemoveStep)
    ensures
        match report {
            Err(e) => r.prints@.len() == 0 && fails_with(r.next, e@),
            Ok(rep) => {
                let echoed = print_views(rep.prints@);
                match rep.outcome@ {
                    OutcomeView::Removed => print_views(r.prints@) == echoed
                        && finishes(r.next, RemoveKind::Normal),
                    OutcomeView::NeedsForce(_) => if force {
                        print_views(r.prints@) == echoed && fails_with(r.next, refused_even_forced(path@))
                    } else {
                        print_views(r.prints@) == echoed + seq![
                            line(false, Seq::empty()),
                            line(false, "The worktree contains modified or untracked files."@),
                        ] && (r.next matches RemoveNext::ConfirmForce { prompt } && prompt@
                            == "Force remove it?"@)
                    },
                    OutcomeView::Orphan(_) => print_views(r.prints@) == echoed + seq![
                        line(false, Seq::empty()),
                        line(false, orphan_notice(path@)),
                    ] && (r.next matches RemoveNext::InspectDotGit { dot_git, force: f } && dot_git@
                        == join(path@, ".git"@) && f == force),
                    OutcomeView::Other(m) => print_views(r.prints@) == echoed
                        && fails_with(
                        r.next,
                        ErrorView::Message { text: "git worktree remove failed: "@ + trim(m) },
                    ),
                }
            },
        },
{
    match report {
        Err(e) => done(Vec::new(), Err(e)),
        Ok(rep) => {
            let mut prints = rep.prints;
            let ghost echoed = print_views(prints@);
            match rep.outcome {
                RemoveOutcome::Removed => done(prints, Ok(RemoveKind::Normal)),
                RemoveOutcome::NeedsForce(_) => {
                    if force {
                        let mut text = owned("git refused to remove ");
                        push_str(&mut text, path);
                        push_str(&mut text, " even with --force");
                        done(prints, Err(WtError::Message { text }))
                    } else {
                        prints.push(blank_line());
                        prints.push(say("The worktree contains modified or untracked files."));
                        assert(print_views(prints@) =~= echoed + seq![
                            line(false, Seq::empty()),
                            line(false, "The worktree contains modified or untracked files."@),
                        ]);
                        RemoveStep {
                            prints,
                            next: RemoveNext::ConfirmForce { prompt: owned("Force remove it?") },
                        }
                    }
                },
                RemoveOutcome::Orphan(_) => {
                    prints.push(blank_line());
                    let mut text = owned(path);
                    push_str(
                        &mut text,
                        " is an orphan directory (git has no record of it as a worktree).",
                    );
                    prints.push(print_line(false, text));
                    assert(print_views(prints@) =~= echoed + seq![
                        line(false, Seq::empty()),
                        line(false, orphan_notice(path@)),
                    ]);
                    RemoveStep {
                        prints,
                        next: RemoveNext::InspectDotGit { dot_git: join_path(path, ".git"), force },
                    }
                },
                RemoveOutcome::Other(m) => {
                    let t = trim_str(m.as_str());
                    done(prints, Err(error_with("git worktree remove failed: ", t.as_str())))
                },
            }
        },
    }
}

/// What follows the question whether to force the removal of `path`:
/// declined, cancel; accepted, run `git worktree remove --force`.
pub fn force_answered(path: &str, answer: Answer) -> (r: RemoveStep)
    ensures
        match answer {
            Err(e) => r.prints@.len() == 0 && fails_with(r.next, prompt_failed(e@)),
            Ok(false) => print_views(r.prints@) == seq![
                line(false, "Worktree removal cancelled."@),
            ] && fails_with(r.next, cancelled()),
            Ok(true) => r.prints@.len() == 0 && (r.next matches RemoveNext::RunForced { args }
                && views(args@) == seq!["worktree"@, "remove"@, "--force"@, path@]),
        },
{
    match answer {
        Err(e) => done(Vec::new(), Err(error_with("prompt failed: ", e.as_str()))),
        Ok(false) => {
            let prints = vec![say("Worktree removal cancelled.")];
            assert(print_views(prints@) == seq![line(false, "Worktree removal cancelled."@)]);
            done(prints, Err(WtError::Message { text: owned("cancelled") }))
        },
        Ok(true) => RemoveStep {
            prints: Vec::new(),
            next: RemoveNext::RunForced { args: worktree_remove_args(path, true) },
        },
    }
}

/// What follows the forced `git worktree remove`: finished when it removed
/// the worktree, a failure otherwise. Git's own output is echoed first.
pub fn forced_reported(report: Result<RemoveReport, WtError>) -> (r: RemoveStep)
    ensures
        match report {
            Err(e) => r.prints@.len() == 0 && fails_with(r.next, e@),
            Ok(rep) => print_views(r.prints@) == print_views(rep.prints@) && match rep.outcome@ {
                OutcomeView::Removed => finishes(r.next, RemoveKind::Normal),
                OutcomeView::NeedsForce(m) | OutcomeView::Orphan(m) | OutcomeView::Other(m) => {
                    fails_with(
                        r.next,
                        ErrorView::Message { text: "git worktree remove --force failed: "@ + trim(m) },
                    )
                },
            },
        },
{
    match report {
        Err(e) => done(Vec::new(), Err(e)),
        Ok(rep) => {
            let prints = rep.prints;
            match rep.outcome {
                RemoveOutcome::Removed => done(prints, Ok(RemoveKind::Normal)),
                RemoveOutcome::NeedsForce(m) | RemoveOutcome::Orphan(m) | RemoveOutcome::Other(m) => {
                    let t = trim_str(m.as_str());
                    done(
                        prints,
                        Err(error_with("git worktree remove --force failed: ", t.as_str())),
                    )
                },
            }
        },
    }
}

/// What follows the inspection of the `.git` of the orphan directory
/// `path`: a refusal when it is a directory; otherwise a note, then the
/// deletion, after a question unless `force`.
pub fn dot_git_inspected(path: &str, force: bool, kind: DotGit) -> (r: RemoveStep)
    ensures
        match kind {
            DotGit::Directory => r.prints@.len() == 0 && fails_with(
                r.next,
                refusing_repository(path@),
            ),
            _ => {
                &&& print_views(r.prints@) == seq![
                    line(
                        false,
                        if kind is Other {
                            dot_git_file_note()
                        } else {
                            no_dot_git_note()
                        },
                    ),
                ]
                &&& if force {
                    r.next matches RemoveNext::DeleteDir { path: p } && p@ == path@
                } else {
                    r.next matches RemoveNext::ConfirmDelete { prompt } && prompt@
                        == "Delete it from disk?"@
                }
            },
        },
{
    let note = match kind {
        DotGit::Directory => {
            let mut text = owned("refusing to delete ");
            push_str(&mut text, path);
            push_str(
                &mut text,
                ": it contains a `.git` directory, which means it's a separate git repository, not a stale worktree. delete it manually if that's really what you want.",
            );
            return done(Vec::new(), Err(WtError::Message { text }));
        },
        DotGit::Other => say(
            "  (it has a `.git` file pointing to a missing admin record -- still safe to remove)",
        ),
        DotGit::Absent => say(
            "  (no `.git` inside -- contents are stale files left behind from a prior cleanup)",
        ),
    };
    let prints = vec![note];
    let next = if force {
        RemoveNext::DeleteDir { path: owned(path) }
    } else {
        RemoveNext::ConfirmDelete { prompt: owned("Delete it from disk?") }
    };
    RemoveStep { prints, next }
}

/// What follows the question whether to delete the orphan directory
/// `path`: declined, cancel; accepted, delete it.
pub fn delete_answered(path: &str, answer: Answer) -> (r: RemoveStep)
    ensures
        match answer {
            Err(e) => r.prints@.len() == 0 && fails_with(r.next, prompt_failed(e@)),
            Ok(false) => print_views(r.prints@) == seq![line(false, "Removal cancelled."@)]
                && fails_with(r.next, cancelled()),
            Ok(true) => r.prints@.len() == 0 && (r.next matches RemoveNext::DeleteDir { path: p }
                && p@ == path@),
        },
{
    match answer {
        Err(e) => done(Vec::new(), Err(error_with("prompt failed: ", e.as_str()))),
        Ok(false) => {
            let prints = vec![say("Removal cancelled.")];
            assert(print_views(prints@) == seq![line(false, "Removal cancelled."@)]);
            done(prints, Err(WtError::Message { text: owned("cancelled") }))
        },
        Ok(true) => RemoveStep { prints: Vec::new(), next: RemoveNext::DeleteDir { path: owned(path) } },
    }
}

/// What follows the deletion of the orphan directory `path`.
pub fn dir_deleted(path: &str, deleted: Result<(), String>) -> (r: RemoveStep)
    ensures
        match deleted {
            Err(e) => r.prints@.len() == 0 && fails_with(
                r.next,
                ErrorView::Message {
                    text: "failed to remove orphan directory "@ + path@ + ": "@ + e@,
                },
            ),
            Ok(()) => print_views(r.prints@) == seq![line(false, "Removed "@ + path@)]
                && finishes(r.next, RemoveKind::Orphan),
        },
{
    match deleted {
        Err(e) => {
            let mut text = owned("failed to remove orphan directory ");
            push_str(&mut text, path);
            push_str(&mut text, ": ");
            push_str(&mut text, e.as_str());
            done(Vec::new(), Err(WtError::Message { text }))
        },
        Ok(()) => {
            let mut text = owned("Removed ");
            push_str(&mut text, path);
            let prints = vec![print_line(false, text)];
            assert(print_views(prints@) == seq![line(false, "Removed "@ + path@)]);
            done(prints, Ok(RemoveKind::Orphan))
        },
    }
}

/// What `wt rm` does next.
pub enum RmNext {
    /// List the worktree names, then call `names_listed`.
    ListWorktrees { loaded: LoadedConfig, force: bool },
    /// Let the user pick one of `items` (the first preselected), then call
    /// `picked`.
    Pick { loaded: LoadedConfig, force: bool, prompt: String, items: Vec<String> },
    /// Test whether `path` exists, then call `checked`.
    CheckExists { loaded: LoadedConfig, force: bool, name: String, path: String },
    /// Remove the worktree at `path` (`remove_worktree(path, force, false)`
    /// and what follows), then call `removed`.
    Remove { loaded: LoadedConfig, force: bool, path: String },
    /// Remove worktrees picked together (`run_interactive(loaded,
    /// skip_confirm, false)` and what follows); its outcome ends the command.
    Interactive { loaded: LoadedConfig, skip_confirm: bool },
    /// Run `git <args>` in `repo_root`, its output to the terminal; print
    /// `prune_warning` of it; the command succeeds.
    Prune { repo_root: String, args: Vec<String> },
    /// End the command.
    Done(Result<(), WtError>),
}

/// The command ends with error `e`.
pub open spec fn rm_fails_with(next: RmNext, e: ErrorView) -> bool {
    next matches RmNext::Done(d) && d is Err && d->Err_0@ == e
}

/// The prompt of the worktree picker of `wt rm`.
pub open spec fn rm_prompt() -> Seq<char> {
    "Select a worktree to remove"@
}

/// The error for `wt rm -i` with a worktree name.
pub open spec fn name_with_interactive() -> ErrorView {
    ErrorView::Message {
        text: "cannot pass a worktree name with --interactive; use `wt rm -i` alone"@,
    }
}

/// `wt rm` goes on to check the worktree named `name`.
pub open spec fn checks(l: LoadedConfig, force: bool, name: Seq<char>, r: RmNext) -> bool {
    r matches RmNext::CheckExists { loaded, force: f, name: n, path } && loaded == l && f == force
        && n@ == name && path@ == worktree_path(l, name)
}

fn check(loaded: LoadedConfig, force: bool, name: String) -> (r: RmNext)
    ensures
        checks(loaded, force, name@, r),
{
    let path = loaded.worktree_path_for_name(name.as_str());
    RmNext::CheckExists { loaded, force, name, path }
}

/// `wt rm`, given the loaded configuration: with `--interactive`, the batch
/// removal (no name allowed); otherwise the named worktree, or a picker when
/// none is named.
pub fn run(args: RmArgs, loaded: Result<LoadedConfig, WtError>) -> (r: RmNext)
    ensures
        match loaded {
            Err(e) => rm_fails_with(r, e@),
            Ok(l) => if args.interactive {
                if args.name is Some {
                    rm_fails_with(r, name_with_interactive())
                } else {
                    r matches RmNext::Interactive { loaded, skip_confirm } && loaded == l
                        && skip_confirm == args.force
                }
            } else {
                match args.name {
                    Some(n) => checks(l, args.force, n@, r),
                    None => r matches RmNext::ListWorktrees { loaded, force } && loaded == l
                        && force == args.force,
                }
            },
        },
{
    let l = match loaded {
        Err(e) => return RmNext::Done(Err(e)),
        Ok(l) => l,
    };
    if args.interactive {
        if args.name.is_some() {
            return RmNext::Done(
                Err(
                    WtError::Message {
                        text: owned(
                            "cannot pass a worktree name with --interactive; use `wt rm -i` alone",
                        ),
                    },
                ),
            );
        }
        return RmNext::Interactive { loaded: l, skip_confirm: args.force };
    }
    match args.name {
        Some(n) => check(l, args.force, n),
        None => RmNext::ListWorktrees { loaded: l, force: args.force },
    }
}

/// `wt rm` once the worktree names are listed: pick one, or fail when
/// there are none.
pub fn names_listed(loaded: LoadedConfig, force: bool, names: Result<Vec<String>, WtError>) -> (r:
    RmNext)
    ensures
        match names {
            Err(e) => rm_fails_with(r, e@),
            Ok(ns) => if ns@.len() == 0 {
                rm_fails_with(r, crate::commands::no_worktrees(loaded.worktrees_dir@))
            } else {
                r matches RmNext::Pick { loaded: l, force: f, prompt, items } && l == loaded && f
                    == force && prompt@ == rm_prompt() && items == ns
            },
        },
{
    match pick_worktree_choices(&loaded, names) {
        Err(e) => RmNext::Done(Err(e)),
        Ok(items) => RmNext::Pick {
            loaded,
            force,
            prompt: owned("Select a worktree to remove"),
            items,
        },
    }
}

/// `wt rm` once the user picked from `items`.
pub fn picked(loaded: LoadedConfig, force: bool, items: Vec<String>, choice: Picked) -> (r: RmNext)
    requires
        choice matches Ok(i) ==> i < items@.len(),
    ensures
        match choice {
            Ok(i) => checks(loaded, force, items@[i as int]@, r),
            Err(e) => rm_fails_with(r, picker_failed(e@)),
        },
{
    match pick_worktree(&items, &choice) {
        Ok(name) => check(loaded, force, name),
        Err(e) => RmNext::Done(Err(e)),
    }
}

/// `wt rm` once it is known whether the worktree exists: remove it, or
/// fail.
pub fn checked(loaded: LoadedConfig, force: bool, name: &str, path: String, found: bool) -> (r:
    RmNext)
    ensures
        if found {
            r matches RmNext::Remove { loaded: l, force: f, path: p } && l == loaded && f == force
                && p == path
        } else {
            rm_fails_with(r, no_such_worktree(name@, path@))
        },
{
    if found {
        RmNext::Remove { loaded, force, path }
    } else {
        RmNext::Done(Err(no_such_worktree_error(name, path.as_str())))
    }
}

/// `wt rm` once the worktree is removed: an orphan directory leaves git's
/// record to prune.
pub fn removed(loaded: LoadedConfig, result: Result<RemoveKind, WtError>) -> (r: RmNext)
    ensures
        match result {
            Err(e) => rm_fails_with(r, e@),
            Ok(RemoveKind::Normal) => r matches RmNext::Done(d) && d is Ok,
            Ok(RemoveKind::Orphan) => r matches RmNext::Prune { repo_root, args } && repo_root
                == loaded.repo_root && views(args@) == seq!["worktree"@, "prune"@],
        },
{
    match result {
        Err(e) => RmNext::Done(Err(e)),
        Ok(RemoveKind::Normal) => RmNext::Done(Ok(())),
        Ok(RemoveKind::Orphan) => RmNext::Prune {
            repo_root: loaded.repo_root,
            args: worktree_prune_args(),
        },
    }
}

/// What is printed after `git worktree prune` ran: a warning (the error
/// without its cause) when it failed; a failed prune does not fail the
/// command.
pub fn prune_warning(ran: &Finished) -> (r: Vec<Print>)
    ensures
        print_views(r@) == match crate::repo::prune_error(*ran) {
            Some(e) => seq![line(true, "warning: git worktree prune failed: "@ + e.head())],
            None => Seq::empty(),
        },
{
    match worktree_prune(ran) {
        Ok(()) => {
            let r: Vec<Print> = Vec::new();
            assert(print_views(r@) =~= Seq::empty());
            r
        },
        Err(e) => {
            let mut text = owned("warning: git worktree prune failed: ");
            let h = e.headline();
            push_str(&mut text, h.as_str());
            let r = vec![print_line(true, text)];
            assert(print_views(r@) =~= seq![
                line(true, "warning: git worktree prune failed: "@ + e@.head()),
            ]);
            r
        },
    }
}

/// The fixed settings of a batch removal.
pub struct Batch {
    pub loaded: LoadedConfig,
    /// Remove without the final question (and force each removal).
    pub skip_confirm: bool,
    /// Show what would be removed, and stop.
    pub dry_run: bool,
}

/// How far a batch removal has come.
pub struct Progress {
    pub batch: Batch,
    /// The names of the worktrees to remove, in order.
    pub chosen: Vec<String>,
    /// The index of the next worktree to remove.
    pub index: usize,
    /// Some removal failed.
    pub had_errors: bool,
    /// Some removal deleted an orphan directory.
    pub removed_orphan: bool,
}

/// What a batch removal does next.
pub enum BatchNext {
    /// List the worktree names, then call `batch_listed`.
    ListWorktrees { batch: Batch },
    /// Find the current branch of each of `paths` (`repo::current_branch_args`
    /// run in each, output captured), then call `labels_ready`.
    QueryBranches { batch: Batch, names: Vec<String>, paths: Vec<String> },
    /// Let the user pick any of `items`, then call `selected`.
    PickMany { batch: Batch, names: Vec<String>, prompt: String, items: Vec<String> },
    /// Find the current branch of each of `paths` again, then call
    /// `summarized`.
    QueryChosenBranches { batch: Batch, chosen: Vec<String>, paths: Vec<String> },
    /// Ask `prompt` (default no), then call `batch_confirmed`.
    Confirm { batch: Batch, chosen: Vec<String>, prompt: String },
    /// Remove the worktree at `path` (`remove_worktree(path, skip_confirm,
    /// true)` and what follows), then call `one_removed`.
    Remove { progress: Progress, path: String },
    /// Run `git <args>` in the repository root, its output to the terminal,
    /// then call `batch_pruned`.
    Prune { progress: Progress, args: Vec<String> },
    /// End the batch removal.
    Done(Result<(), WtError>),
}

/// What to print, then what to do.
pub struct BatchStep {
    pub prints: Vec<Print>,
    pub next: BatchNext,
}

/// The label of a worktree in the picker and the summary.
pub open spec fn label(name: Seq<char>, ran: Captured) -> Seq<char> {
    name + "  ["@ + shown_branch(ran) + "]"@
}

/// The paths of the worktrees named in `names`.
pub open spec fn paths_of(l: LoadedConfig, names: Seq<String>) -> Seq<Seq<char>> {
    names.map_values(|n: String| worktree_path(l, n@))
}

/// The divider line of the summaries.
pub open spec fn divider() -> Seq<char> {
    "=========================================="@
}

fn paths_for(loaded: &LoadedConfig, names: &Vec<String>) -> (r: Vec<String>)
    ensures
        views(r@) == paths_of(*loaded, names@),
{
    let mut r: Vec<String> = Vec::new();
    let mut i: usize = 0;
    while i < names.len()
        invariant
            i <= names@.len(),
            views(r@) == paths_of(*loaded, names@.take(i as int)),
        decreases names@.len() - i,
    {
        r.push(loaded.worktree_path_for_name(names[i].as_str()));
        assert(paths_of(*loaded, names@.take(i + 1)) == paths_of(*loaded, names@.take(i as int)).push(
            worktree_path(*loaded, names@[i as int]@),
        ));
        i = i + 1;
    }
    assert(names@.take(names@.len() as int) == names@);
    r
}

fn label_exec(name: &str, ran: &Captured) -> (r: String)
    ensures
        r@ == label(name@, *ran),
{
    let mut r = owned(name);
    push_str(&mut r, "  [");
    let b = branch_or_detached(ran);
    push_str(&mut r, b.as_str());
    push_str(&mut r, "]");
    r
}

/// The batch removal begins: multi-select worktrees, confirm once, then
/// remove each (no per-worktree questions).
pub fn run_interactive(loaded: LoadedConfig, skip_confirm: bool, dry_run: bool) -> (r: BatchNext)
    ensures
        r matches BatchNext::ListWorktrees { batch } && batch.loaded == loaded
            && batch.skip_confirm == skip_confirm && batch.dry_run == dry_run,
{
    BatchNext::ListWorktrees { batch: Batch { loaded, skip_confirm, dry_run } }
}

/// The batch removal once the worktree names are listed: nothing to do
/// when there are none; otherwise find their branches.
pub fn batch_listed(batch: Batch, names: Result<Vec<String>, WtError>) -> (r: BatchStep)
    ensures
        match names {
            Err(e) => r.prints@.len() == 0 && (r.next matches BatchNext::Done(d) && d is Err
                && d->Err_0@ == e@),
            Ok(ns) => if ns@.len() == 0 {
                print_views(r.prints@) == seq![
                    line(false, "No worktrees found in "@ + batch.loaded.worktrees_dir@),
                ] && (r.next matches BatchNext::Done(d) && d is Ok)
            } else {
                r.prints@.len() == 0 && (r.next matches BatchNext::QueryBranches {
                    batch: b,
                    names: n,
                    paths,
                } && b == batch && n == ns && views(paths@) == paths_of(batch.loaded, ns@))
            },
        },
{
    match names {
        Err(e) => BatchStep { prints: Vec::new(), next: BatchNext::Done(Err(e)) },
        Ok(ns) => {
            if ns.len() == 0 {
                let mut text = owned("No worktrees found in ");
                push_str(&mut text, batch.loaded.worktrees_dir.as_str());
                let prints = vec![print_line(false, text)];
                assert(print_views(prints@) =~= seq![
                    line(false, "No worktrees found in "@ + batch.loaded.worktrees_dir@),
                ]);
                BatchStep { prints, next: BatchNext::Done(Ok(())) }
            } else {
                let paths = paths_for(&batch.loaded, &ns);
                BatchStep {
                    prints: Vec::new(),
                    next: BatchNext::QueryBranches { batch, names: ns, paths },
                }
            }
        },
    }
}

/// The prompt of the batch picker.
pub open spec fn batch_prompt() -> Seq<char> {
    "Select worktrees to remove (space to toggle, enter to confirm)"@
}

/// The batch removal once the branches are known: offer the worktrees,
/// labelled with their branches.
pub fn labels_ready(batch: Batch, names: Vec<String>, branches: Vec<Captured>) -> (r: BatchNext)
    requires
        branches@.len() == names@.len(),
    ensures
        r matches BatchNext::PickMany { batch: b, names: n, prompt, items } && b == batch && n
            == names && prompt@ == batch_prompt() && views(items@) == Seq::new(
            names@.len(),
            |i: int| label(names@[i]@, branches@[i]),
        ),
{
    let mut items: Vec<String> = Vec::new();
    let mut i: usize = 0;
    while i < names.len()
        invariant
            i <= names@.len() == branches@.len(),
            views(items@) == Seq::new(i as nat, |k: int| label(names@[k]@, branches@[k])),
        decreases names@.len() - i,
    {
        let ghost old_items = items@;
        let l = label_exec(names[i].as_str(), &branches[i]);
        items.push(l);
        proof {
            crate::process::lemma_views_push(old_items, l);
        }
        assert(views(items@) =~= Seq::new((i + 1) as nat, |k: int| label(names@[k]@, branches@[k])));
        i = i + 1;
    }
    BatchNext::PickMany {
        batch,
        names,
        prompt: owned("Select worktrees to remove (space to toggle, enter to confirm)"),
        items,
    }
}

/// The batch removal once the user picked: nothing to do when nothing was
/// picked; otherwise find the branches of the picked worktrees again.
pub fn selected(batch: Batch, names: Vec<String>, choice: Result<Vec<usize>, String>) -> (r: BatchStep)
    requires
        choice matches Ok(sel) ==> forall|k: int| 0 <= k < sel@.len() ==> sel@[k] < names@.len(),
    ensures
        match choice {
            Err(e) => r.prints@.len() == 0 && (r.next matches BatchNext::Done(d) && d is Err
                && d->Err_0@ == picker_failed(e@)),
            Ok(sel) => if sel@.len() == 0 {
                print_views(r.prints@) == seq![line(false, "Nothing selected."@)] && (
                r.next matches BatchNext::Done(d) && d is Ok)
            } else {
                r.prints@.len() == 0 && (r.next matches BatchNext::QueryChosenBranches {
                    batch: b,
                    chosen,
                    paths,
                } && b == batch && views(chosen@) == Seq::new(
                    sel@.len(),
                    |k: int| names@[sel@[k] as int]@,
                ) && views(paths@) == paths_of(batch.loaded, chosen@))
            },
        },
{
    match choice {
        Err(e) => BatchStep {
            prints: Vec::new(),
            next: BatchNext::Done(Err(error_with("picker failed: ", e.as_str()))),
        },
        Ok(sel) => {
            if sel.len() == 0 {
                let prints = vec![say("Nothing selected.")];
                assert(print_views(prints@) =~= seq![line(false, "Nothing selected."@)]);
                return BatchStep { prints, next: BatchNext::Done(Ok(())) };
            }
            let mut chosen: Vec<String> = Vec::new();
            let mut k: usize = 0;
            while k < sel.len()
                invariant
                    k <= sel@.len(),
                    forall|j: int| 0 <= j < sel@.len() ==> sel@[j] < names@.len(),
                    views(chosen@) == Seq::new(k as nat, |j: int| names@[sel@[j] as int]@),
                decreases sel@.len() - k,
            {
                let ghost old_chosen = chosen@;
                let c = owned(names[sel[k]].as_str());
                chosen.push(c);
                proof {
                    crate::process::lemma_views_push(old_chosen, c);
                }
                assert(views(chosen@) =~= Seq::new(
                    (k + 1) as nat,
                    |j: int| names@[sel@[j] as int]@,
                ));
                k = k + 1;
            }
            let paths = paths_for(&batch.loaded, &chosen);
            BatchStep {
                prints: Vec::new(),
                next: BatchNext::QueryChosenBranches { batch, chosen, paths },
            }
        },
    }
}

/// The summary of a batch removal: the worktrees to remove, with their
/// branches.
pub open spec fn summary(chosen: Seq<String>, branches: Seq<Captured>) -> Seq<(bool, Seq<char>)> {
    seq![
        line(false, Seq::empty()),
        line(false, divider()),
        line(false, "Will remove "@ + decimal(chosen.len()) + " worktree(s):"@),
        line(false, divider()),
    ] + Seq::new(chosen.len(), |i: int| line(false, "  "@ + label(chosen[i]@, branches[i])))
        + seq![line(false, Seq::empty())]
}

/// The lines that start the removals.
pub open spec fn removing_header() -> Seq<(bool, Seq<char>)> {
    seq![line(false, Seq::empty()), line(false, "Removing..."@), line(false, Seq::empty())]
}

/// The question before a batch removal.
pub open spec fn batch_question(n: nat) -> Seq<char> {
    "Remove "@ + decimal(n) + " worktree(s)?"@
}

/// The batch removal goes on to remove the first chosen worktree, after
/// `before` was printed.
pub open spec fn starts_removing(batch: Batch, chosen: Seq<String>, before: Seq<(bool, Seq<char>)>, r: BatchStep) -> bool {
    r matches BatchStep { prints, next: BatchNext::Remove { progress, path } } && progress.batch
        == batch && progress.chosen@ == chosen && progress.index == 0 && !progress.had_errors
        && !progress.removed_orphan && print_views(prints@) == before + removing_header() + seq![
        line(false, "Removing "@ + chosen[0]@ + "..."@),
    ] && path@ == worktree_path(batch.loaded, chosen[0]@)
}

fn start_removing(batch: Batch, chosen: Vec<String>, prints: Vec<Print>) -> (r: BatchStep)
    requires
        chosen@.len() > 0,
    ensures
        starts_removing(batch, chosen@, print_views(prints@), r),
{
    let mut prints = prints;
    let ghost before = print_views(prints@);
    prints.push(blank_line());
    prints.push(say("Removing..."));
    prints.push(blank_line());
    let mut text = owned("Removing ");
    push_str(&mut text, chosen[0].as_str());
    push_str(&mut text, "...");
    prints.push(print_line(false, text));
    let path = batch.loaded.worktree_path_for_name(chosen[0].as_str());
    assert(print_views(prints@) =~= before + removing_header() + seq![
        line(false, "Removing "@ + chosen@[0]@ + "..."@),
    ]);
    BatchStep {
        prints,
        next: BatchNext::Remove {
            progress: Progress { batch, chosen, index: 0, had_errors: false, removed_orphan: false },
            path,
        },
    }
}

/// The batch removal once the branches of the chosen worktrees are known:
/// print the summary; then stop on a dry run, ask unless told not to, or
/// start removing.
pub fn summarized(batch: Batch, chosen: Vec<String>, branches: Vec<Captured>) -> (r: BatchStep)
    requires
        branches@.len() == chosen@.len(),
        chosen@.len() > 0,
    ensures
        ({
            let s = summary(chosen@, branches@);
            if batch.dry_run {
                print_views(r.prints@) == s + seq![
                    line(false, "--dry-run: not removing anything."@),
                ] && (r.next matches BatchNext::Done(d) && d is Ok)
            } else if !batch.skip_confirm {
                print_views(r.prints@) == s && (r.next matches BatchNext::Confirm {
                    batch: b,
                    chosen: c,
                    prompt,
                } && b == batch && c == chosen && prompt@ == batch_question(chosen@.len()))
            } else {
                starts_removing(batch, chosen@, s, r)
            }
        }),
{
    let mut prints: Vec<Print> = Vec::new();
    prints.push(blank_line());
    prints.push(say("=========================================="));
    let mut text = owned("Will remove ");
    push_decimal(&mut text, chosen.len() as u64);
    push_str(&mut text, " worktree(s):");
    prints.push(print_line(false, text));
    prints.push(say("=========================================="));
    let ghost head = print_views(prints@);
    assert(head =~= seq![
        line(false, Seq::empty()),
        line(false, divider()),
        line(false, "Will remove "@ + decimal(chosen@.len()) + " worktree(s):"@),
        line(false, divider()),
    ]);
    let mut i: usize = 0;
    while i < chosen.len()
        invariant
            i <= chosen@.len() == branches@.len(),
            print_views(prints@) == head + Seq::new(
                i as nat,
                |k: int| line(false, "  "@ + label(chosen@[k]@, branches@[k])),
            ),
        decreases chosen@.len() - i,
    {
        let mut t = owned("  ");
        let l = label_exec(chosen[i].as_str(), &branches[i]);
        push_str(&mut t, l.as_str());
        let ghost old_prints = prints@;
        let pl = print_line(false, t);
        prints.push(pl);
        proof {
            crate::repo::lemma_print_views_push(old_prints, pl);
        }
        assert(print_views(prints@) =~= head + Seq::new(
            (i + 1) as nat,
            |k: int| line(false, "  "@ + label(chosen@[k]@, branches@[k])),
        ));
        i = i + 1;
    }
    prints.push(blank_line());
    assert(print_views(prints@) =~= summary(chosen@, branches@));
    if batch.dry_run {
        prints.push(say("--dry-run: not removing anything."));
        assert(print_views(prints@) =~= summary(chosen@, branches@) + seq![
            line(false, "--dry-run: not removing anything."@),
        ]);
        return BatchStep { prints, next: BatchNext::Done(Ok(())) };
    }
    if !batch.skip_confirm {
        let mut prompt = owned("Remove ");
        push_decimal(&mut prompt, chosen.len() as u64);
        push_str(&mut prompt, " worktree(s)?");
        return BatchStep { prints, next: BatchNext::Confirm { batch, chosen, prompt } };
    }
    start_removing(batch, chosen, prints)
}

/// The batch removal once the user answered the question: stop when they
/// declined, or start removing.
pub fn batch_confirmed(batch: Batch, chosen: Vec<String>, answer: Answer) -> (r: BatchStep)
    requires
        chosen@.len() > 0,
    ensures
        match answer {
            Err(e) => r.prints@.len() == 0 && (r.next matches BatchNext::Done(d) && d is Err
                && d->Err_0@ == prompt_failed(e@)),
            Ok(false) => print_views(r.prints@) == seq![line(false, "Removal cancelled."@)] && (
            r.next matches BatchNext::Done(d) && d is Ok),
            Ok(true) => starts_removing(batch, chosen@, Seq::empty(), r),
        },
{
    match answer {
        Err(e) => BatchStep {
            prints: Vec::new(),
            next: BatchNext::Done(Err(error_with("prompt failed: ", e.as_str()))),
        },
        Ok(false) => {
            let prints = vec![say("Removal cancelled.")];
            assert(print_views(prints@) =~= seq![line(false, "Removal cancelled."@)]);
            BatchStep { prints, next: BatchNext::Done(Ok(())) }
        },
        Ok(true) => {
            let prints: Vec<Print> = Vec::new();
            assert(print_views(prints@) =~= Seq::empty());
            start_removing(batch, chosen, prints)
        },
    }
}

/// What a batch removal prints at its end.
pub open spec fn end_prints(had_errors: bool) -> Seq<(bool, Seq<char>)> {
    if had_errors {
        Seq::empty()
    } else {
        seq![line(false, "Done."@)]
    }
}

/// How a batch removal ends: with an error when some removal failed.
pub open spec fn ends(next: BatchNext, had_errors: bool) -> bool {
    if had_errors {
        next matches BatchNext::Done(d) && d is Err && d->Err_0@ == (ErrorView::Message {
            text: "one or more worktrees failed to remove"@,
        })
    } else {
        next matches BatchNext::Done(d) && d is Ok
    }
}

/// A batch removal in which some removal failed ends in failure, with
/// "one or more worktrees failed to remove"; one in which none failed ends
/// in success.
pub proof fn lemma_batch_end_reports_failures(next: BatchNext, had_errors: bool)
    requires
        ends(next, had_errors),
    ensures
        next matches BatchNext::Done(d) && (d is Err <==> had_errors),
        had_errors ==> (next matches BatchNext::Done(d) && d is Err && d->Err_0@
            == ErrorView::Message { text: "one or more worktrees failed to remove"@ }),
{
}

/// How a batch removal ends once every chosen worktree was tried.
pub open spec fn batch_end(had_errors: bool, r: BatchStep) -> bool {
    print_views(r.prints@) == end_prints(had_errors) && ends(r.next, had_errors)
}

fn end_batch(had_errors: bool) -> (r: BatchStep)
    ensures
        batch_end(had_errors, r),
{
    if had_errors {
        let prints: Vec<Print> = Vec::new();
        assert(print_views(prints@) =~= Seq::empty());
        BatchStep {
            prints,
            next: BatchNext::Done(
                Err(WtError::Message { text: owned("one or more worktrees failed to remove") }),
            ),
        }
    } else {
        let prints = vec![say("Done.")];
        assert(print_views(prints@) =~= seq![line(false, "Done."@)]);
        BatchStep { prints, next: BatchNext::Done(Ok(())) }
    }
}

/// The batch removal once one worktree removal ended: note a failure (on
/// standard error, with its whole chain) or an orphan; then go on to the
/// next worktree, or, after the last, prune git's records when an orphan
/// was deleted, or end.
pub fn one_removed(progress: Progress, result: Result<RemoveKind, WtError>) -> (r: BatchStep)
    requires
        progress.index < progress.chosen@.len(),
    ensures
        ({
            let failed = result is Err;
            let orphan = result matches Ok(RemoveKind::Orphan);
            let had_errors = progress.had_errors || failed;
            let removed_orphan = progress.removed_orphan || orphan;
            let noted = if failed {
                seq![line(true, "  failed: "@ + result->Err_0@.text()), line(false, Seq::empty())]
            } else {
                seq![line(false, Seq::empty())]
            };
            let i = progress.index + 1;
            if i < progress.chosen@.len() {
                r matches BatchStep { prints, next: BatchNext::Remove { progress: p, path } }
                    && p.batch == progress.batch && p.chosen == progress.chosen && p.index == i
                    && p.had_errors == had_errors && p.removed_orphan == removed_orphan
                    && print_views(prints@) == noted + seq![
                    line(false, "Removing "@ + progress.chosen@[i]@ + "..."@),
                ] && path@ == worktree_path(progress.batch.loaded, progress.chosen@[i]@)
            } else if removed_orphan {
                r matches BatchStep { prints, next: BatchNext::Prune { progress: p, args } }
                    && p.had_errors == had_errors && print_views(prints@) == noted && views(args@)
                    == seq!["worktree"@, "prune"@]
            } else {
                print_views(r.prints@) == noted + end_prints(had_errors) && ends(r.next, had_errors)
            }
        }),
{
    let mut prints: Vec<Print> = Vec::new();
    let mut had_errors = progress.had_errors;
    let mut removed_orphan = progress.removed_orphan;
    match result {
        Ok(RemoveKind::Normal) => {},
        Ok(RemoveKind::Orphan) => {
            removed_orphan = true;
        },
        Err(e) => {
            let mut text = owned("  failed: ");
            let m = e.message();
            push_str(&mut text, m.as_str());
            prints.push(print_line(true, text));
            had_errors = true;
        },
    }
    prints.push(blank_line());
    let n = progress.chosen.len();
    let i = progress.index + 1;
    let p = Progress {
        batch: progress.batch,
        chosen: progress.chosen,
        index: i,
        had_errors,
        removed_orphan,
    };
    if i < n {
        let mut text = owned("Removing ");
        push_str(&mut text, p.chosen[i].as_str());
        push_str(&mut text, "...");
        prints.push(print_line(false, text));
        let path = p.batch.loaded.worktree_path_for_name(p.chosen[i].as_str());
        BatchStep { prints, next: BatchNext::Remove { progress: p, path } }
    } else if removed_orphan {
        BatchStep { prints, next: BatchNext::Prune { progress: p, args: worktree_prune_args() } }
    } else {
        let end = end_batch(had_errors);
        let ghost before = print_views(prints@);
        let BatchStep { prints: mut more, next } = end;
        let ghost after = print_views(more@);
        let mut all = prints;
        all.append(&mut more);
        assert(print_views(all@) =~= before + after);
        BatchStep { prints: all, next }
    }
}

/// The batch removal once git's records were pruned: a failed prune is a
/// warning; then the batch ends.
pub fn batch_pruned(progress: Progress, ran: &Finished) -> (r: BatchStep)
    ensures
        ({
            let warned = match crate::repo::prune_error(*ran) {
                Some(e) => seq![line(true, "warning: git worktree prune failed: "@ + e.head())],
                None => Seq::empty(),
            };
            print_views(r.prints@) == warned + end_prints(progress.had_errors) && ends(
                r.next,
                progress.had_errors,
            )
        }),
{
    let mut prints = prune_warning(ran);
    let end = end_batch(progress.had_errors);
    let ghost e_prints = print_views(end.prints@);
    let ghost w = print_views(prints@);
    let BatchStep { prints: mut more, next } = end;
    prints.append(&mut more);
    assert(print_views(prints@) =~= w + e_prints);
    let r = BatchStep { prints, next };
    r
}

} // verus!
