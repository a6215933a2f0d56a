//! `wt new`: create (or re-open) a worktree for a branch, run the
//! configured steps, and open the IDE.

use vstd::prelude::*;

use crate::cli::NewArgs;
use crate::commands::{line, print_line};
use crate::config::{dir_name_of, LoadedConfig};
use crate::error::{ErrorView, WtError};
use crate::paths::{join, join_path};
use crate::process::{command_line, views, Captured, Finished};
use crate::repo::{
    branch_of, current_branch, fetch_origin_quiet_args, git_spawn_error, local_branch_exists,
    local_branch_exists_args, print_views, remote_branch_exists, remote_branch_exists_args,
    worktree_add_existing, worktree_add_existing_args, worktree_add_new_no_track,
    worktree_add_new_no_track_args, Print,
};
use crate::text::{owned, push_str, trim, trim_str, to_chars};

verus! {

/// What `wt new` is working on.
pub struct Creation {
    pub loaded: LoadedConfig,
    /// The branch, trimmed.
    pub branch: String,
    /// Its directory name.
    pub dir_name: String,
    /// The path of its worktree.
    pub path: String,
    /// Do not open the IDE at the end.
    pub no_open: bool,
}

/// What `wt new` does next.
pub enum NewNext {
    /// Test whether `state.path` exists, then call `path_checked`.
    CheckPath { state: Creation },
    /// Test whether `dot_git` exists, then call `dot_git_checked`.
    CheckDotGit { state: Creation, dot_git: String },
    /// Run `git rev-parse --abbrev-ref HEAD` in `state.path` with output
    /// captured, then call `existing_branch`.
    QueryBranch { state: Creation },
    /// Create the parent directories of `state.path`, then call
    /// `parent_created`.
    CreateParent { state: Creation },
    /// Run `git <args>` in the repository root quietly, ignoring how it
    /// ends, then call `fetched`.
    Fetch { state: Creation, args: Vec<String> },
    /// Run `git <args>` in the repository root quietly, then call
    /// `local_probed` (`remote` false) or `remote_probed` (`remote` true).
    Probe { state: Creation, remote: bool, args: Vec<String> },
    /// Run `git <args>` in the repository root, output to the terminal, then
    /// call `worktree_added` (with `new_branch`).
    AddWorktree { state: Creation, new_branch: bool, args: Vec<String> },
    /// Run the configured steps (`steps::run_all` and what follows) with
    /// the step context of `state`, then call `steps_done`.
    RunSteps { state: Creation },
    /// Open the IDE on `path`; its outcome ends the command.
    OpenIde { path: String },
    /// End the command.
    Done(Result<(), WtError>),
}

/// What to print, then what to do.
pub struct NewStep {
    pub prints: Vec<Print>,
    pub next: NewNext,
}

/// The command ends with error `e`, printing nothing.
pub open spec fn new_fails_with(r: NewStep, e: ErrorView) -> bool {
    r.prints@.len() == 0 && (r.next matches NewNext::Done(d) && d is Err && d->Err_0@ == e)
}

fn fail(e: WtError) -> (r: NewStep)
    ensures
        new_fails_with(r, e@),
{
    NewStep { prints: Vec::new(), next: NewNext::Done(Err(e)) }
}

fn go(next: NewNext) -> (r: NewStep)
    ensures
        r.prints@.len() == 0,
        r.next == next,
{
    NewStep { prints: Vec::new(), next }
}

fn say_then(text: String, next: NewNext) -> (r: NewStep)
    ensures
        print_views(r.prints@) == seq![line(false, text@)],
        r.next == next,
{
    let prints = vec![print_line(false, text)];
    assert(print_views(prints@) =~= seq![line(false, text@)]);
    NewStep { prints, next }
}

/// `wt new`, given the loaded configuration: the branch name (trimmed)
/// must not be empty; then check whether its worktree is already there.
pub fn run(args: NewArgs, loaded: Result<LoadedConfig, WtError>) -> (r: NewStep)
    ensures
        match loaded {
            Err(e) => new_fails_with(r, e@),
            Ok(l) => if trim(args.branch@).len() == 0 {
                new_fails_with(r, ErrorView::Message { text: "branch name must not be empty"@ })
            } else {
                r.prints@.len() == 0 && (r.next matches NewNext::CheckPath { state } && state.loaded
                    == l && state.branch@ == trim(args.branch@) && state.dir_name@ == dir_name_of(
                    trim(args.branch@),
                ) && state.path@ == join(l.worktrees_dir@, dir_name_of(trim(args.branch@)))
                    && state.no_open == args.no_open)
            },
        },
{
    let l = match loaded {
        Err(e) => return fail(e),
        Ok(l) => l,
    };
    let branch = trim_str(args.branch.as_str());
    if to_chars(branch.as_str()).len() == 0 {
        return fail(WtError::Message { text: owned("branch name must not be empty") });
    }
    let dir_name = LoadedConfig::branch_to_dir_name(branch.as_str());
    let path = l.worktree_path_for_branch(branch.as_str());
    go(NewNext::CheckPath { state: Creation { loaded: l, branch, dir_name, path, no_open: args.no_open } })
}

/// `wt new` once it is known whether the worktree path exists: when it
/// does, check that it is a worktree; otherwise create its parent
/// directories.
pub fn path_checked(state: Creation, found: bool) -> (r: NewStep)
    ensures
        r.prints@.len() == 0,
        if found {
            r.next matches NewNext::CheckDotGit { state: s, dot_git } && s == state && dot_git@
                == join(state.path@, ".git"@)
        } else {
            r.next matches NewNext::CreateParent { state: s } && s == state
        },
{
    if found {
        let dot_git = join_path(state.path.as_str(), ".git");
        go(NewNext::CheckDotGit { state, dot_git })
    } else {
        go(NewNext::CreateParent { state })
    }
}

/// `wt new` once it is known whether the existing path has a `.git`: when
/// it has none it is not a worktree (git would walk up to the parent
/// repository and report a misleading branch), so fail; otherwise find its
/// branch.
pub fn dot_git_checked(state: Creation, found: bool) -> (r: NewStep)
    ensures
        if found {
            r.prints@.len() == 0 && (r.next matches NewNext::QueryBranch { state: s } && s == state)
        } else {
            new_fails_with(
                r,
                ErrorView::Message {
                    text: state.path@
                        + " already exists but is not a git worktree. remove or rename it first."@,
                },
            )
        },
{
    if found {
        go(NewNext::QueryBranch { state })
    } else {
        let mut text = owned(state.path.as_str());
        push_str(&mut text, " already exists but is not a git worktree. remove or rename it first.");
        fail(WtError::Message { text })
    }
}

/// `wt new` once the branch of the existing worktree is known: on the
/// wanted branch, skip setup (and open the IDE unless told not to); on
/// another branch, or none, fail.
pub fn existing_branch(state: Creation, ran: &Captured) -> (r: NewStep)
    ensures
        match branch_of(*ran) {
            Some(existing) => if existing == state.branch@ {
                print_views(r.prints@) == seq![
                    line(
                        false,
                        "Worktree already exists at "@ + state.path@ + " on branch "@ + state.branch@
                            + "; skipping setup."@,
                    ),
                ] && if state.no_open {
                    r.next matches NewNext::Done(d) && d is Ok
                } else {
                    r.next matches NewNext::OpenIde { path } && path == state.path
                }
            } else {
                new_fails_with(
                    r,
                    ErrorView::Message {
                        text: state.path@ + " already exists but is on branch "@ + existing
                            + " (wanted "@ + state.branch@ + "). remove it with `wt rm "@
                            + state.dir_name@ + "` first."@,
                    },
                )
            },
            None => new_fails_with(
                r,
                ErrorView::Message {
                    text: state.path@
                        + " already exists but is not a recognizable git worktree. remove it manually."@,
                },
            ),
        },
{
    match current_branch(ran) {
        Some(existing) => {
            let ev = to_chars(existing.as_str());
            let bv = to_chars(state.branch.as_str());
            if crate::gh::chars_eq(&ev, &bv) {
                let mut text = owned("Worktree already exists at ");
                push_str(&mut text, state.path.as_str());
                push_str(&mut text, " on branch ");
                push_str(&mut text, state.branch.as_str());
                push_str(&mut text, "; skipping setup.");
                if state.no_open {
                    say_then(text, NewNext::Done(Ok(())))
                } else {
                    say_then(text, NewNext::OpenIde { path: state.path })
                }
            } else {
                let mut text = owned(state.path.as_str());
                push_str(&mut text, " already exists but is on branch ");
                push_str(&mut text, existing.as_str());
                push_str(&mut text, " (wanted ");
                push_str(&mut text, state.branch.as_str());
                push_str(&mut text, "). remove it with `wt rm ");
                push_str(&mut text, state.dir_name.as_str());
                push_str(&mut text, "` first.");
                fail(WtError::Message { text })
            }
        },
        None => {
            let mut text = owned(state.path.as_str());
            push_str(
                &mut text,
                " already exists but is not a recognizable git worktree. remove it manually.",
            );
            fail(WtError::Message { text })
        },
    }
}

/// `wt new` once the parent directories were (or were not) created: a
/// failure ends the command; otherwise fetch the default branch.
pub fn parent_created(state: Creation, created: Result<(), String>) -> (r: NewStep)
    ensures
        match created {
            Err(e) => new_fails_with(r, ErrorView::Message { text: e@ }),
            Ok(()) => r.prints@.len() == 0 && (r.next matches NewNext::Fetch { state: s, args }
                && s == state && views(args@) == seq![
                "fetch"@,
                "origin"@,
                state.loaded.config.default_branch@,
                "--quiet"@,
            ]),
        },
{
    match created {
        Err(e) => fail(WtError::Message { text: e }),
        Ok(()) => {
            let args = fetch_origin_quiet_args(state.loaded.config.default_branch.as_str());
            go(NewNext::Fetch { state, args })
        },
    }
}

/// `wt new` once the fetch ran: look for a local branch first.
pub fn fetched(state: Creation) -> (r: NewStep)
    ensures
        r.prints@.len() == 0,
        r.next matches NewNext::Probe { state: s, remote, args } && s == state && !remote && views(
            args@,
        ) == seq!["show-ref"@, "--verify"@, "--quiet"@, "refs/heads/"@ + state.branch@],
{
    let args = local_branch_exists_args(state.branch.as_str());
    go(NewNext::Probe { state, remote: false, args })
}

/// The line announcing a worktree for a branch that exists `where_`.
pub open spec fn exists_line(branch: Seq<char>, where_: Seq<char>) -> Seq<char> {
    "Branch '"@ + branch + "' exists "@ + where_ + ", creating worktree..."@
}

fn add_existing(state: Creation, where_: &str) -> (r: NewStep)
    ensures
        print_views(r.prints@) == seq![line(false, exists_line(state.branch@, where_@))],
        r.next matches NewNext::AddWorktree { state: s, new_branch, args } && s == state
            && !new_branch && views(args@) == seq![
            "worktree"@,
            "add"@,
            state.path@,
            state.branch@,
        ],
{
    let mut text = owned("Branch '");
    push_str(&mut text, state.branch.as_str());
    push_str(&mut text, "' exists ");
    push_str(&mut text, where_);
    push_str(&mut text, ", creating worktree...");
    let args = worktree_add_existing_args(state.path.as_str(), state.branch.as_str());
    say_then(text, NewNext::AddWorktree { state, new_branch: false, args })
}

/// `wt new` once it is known whether the branch exists locally: add the
/// worktree for it, or look for it on `origin`.
pub fn local_probed(state: Creation, ran: &Finished) -> (r: NewStep)
    ensures
        if crate::repo::probe_succeeded(*ran) {
            print_views(r.prints@) == seq![line(false, exists_line(state.branch@, "locally"@))] && (
            r.next matches NewNext::AddWorktree { state: s, new_branch, args } && s == state
                && !new_branch && views(args@) == seq![
                "worktree"@,
                "add"@,
                state.path@,
                state.branch@,
            ])
        } else {
            r.prints@.len() == 0 && (r.next matches NewNext::Probe { state: s, remote, args } && s
                == state && remote && views(args@) == seq![
                "show-ref"@,
                "--verify"@,
                "--quiet"@,
                "refs/remotes/origin/"@ + state.branch@,
            ])
        },
{
    if local_branch_exists(ran) {
        add_existing(state, "locally")
    } else {
        let args = remote_branch_exists_args(state.branch.as_str());
        go(NewNext::Probe { state, remote: true, args })
    }
}

/// `wt new` once it is known whether the branch exists on `origin`: add
/// the worktree for it, or create the branch off `origin/<default>` without
/// tracking.
pub fn remote_probed(state: Creation, ran: &Finished) -> (r: NewStep)
    ensures
        if crate::repo::probe_succeeded(*ran) {
            print_views(r.prints@) == seq![line(false, exists_line(state.branch@, "remotely"@))] && (
            r.next matches NewNext::AddWorktree { state: s, new_branch, args } && s == state
                && !new_branch && views(args@) == seq![
                "worktree"@,
                "add"@,
                state.path@,
                state.branch@,
            ])
        } else {
            print_views(r.prints@) == seq![
                line(
                    false,
                    "Branch '"@ + state.branch@ + "' doesn't exist, creating new branch from origin/"@
                        + state.loaded.config.default_branch@ + "..."@,
                ),
            ] && (r.next matches NewNext::AddWorktree { state: s, new_branch, args } && s == state
                && new_branch && views(args@) == seq![
                "worktree"@,
                "add"@,
                state.path@,
                "-b"@,
                state.branch@,
                "--no-track"@,
                "origin/"@ + state.loaded.config.default_branch@,
            ])
        },
{
    if remote_branch_exists(ran) {
        add_existing(state, "remotely")
    } else {
        let mut text = owned("Branch '");
        push_str(&mut text, state.branch.as_str());
        push_str(&mut text, "' doesn't exist, creating new branch from origin/");
        push_str(&mut text, state.loaded.config.default_branch.as_str());
        push_str(&mut text, "...");
        let args = worktree_add_new_no_track_args(
            state.path.as_str(),
            state.branch.as_str(),
            state.loaded.config.default_branch.as_str(),
        );
        say_then(text, NewNext::AddWorktree { state, new_branch: true, args })
    }
}

/// `wt new` once `git worktree add` ran: a failure ends the command;
/// otherwise run the configured steps.
pub fn worktree_added(state: Creation, new_branch: bool, ran: &Finished) -> (r: NewStep)
    ensures
        ({
            let args = if new_branch {
                seq![
                    "worktree"@,
                    "add"@,
                    state.path@,
                    "-b"@,
                    state.branch@,
                    "--no-track"@,
                    "origin/"@ + state.loaded.config.default_branch@,
                ]
            } else {
                seq!["worktree"@, "add"@, state.path@, state.branch@]
            };
            match ran {
                Ok(code) => if crate::process::exit_ok(*code) {
                    r.prints@.len() == 0 && (r.next matches NewNext::RunSteps { state: s } && s
                        == state)
                } else {
                    new_fails_with(
                        r,
                        ErrorView::Exited { command: command_line("git"@, args), code: *code },
                    )
                },
                Err(cause) => new_fails_with(r, git_spawn_error(args, cause@)),
            }
        }),
{
    let added = if new_branch {
        worktree_add_new_no_track(
            state.path.as_str(),
            state.branch.as_str(),
            state.loaded.config.default_branch.as_str(),
            ran,
        )
    } else {
        worktree_add_existing(state.path.as_str(), state.branch.as_str(), ran)
    };
    match added {
        Err(e) => fail(e),
        Ok(()) => go(NewNext::RunSteps { state }),
    }
}

/// `wt new` once the steps ran: a failure ends the command (the worktree
/// stays in place); otherwise open the IDE, or tell where the worktree is.
pub fn steps_done(state: Creation, result: Result<(), WtError>) -> (r: NewStep)
    ensures
        match result {
            Err(e) => new_fails_with(r, e@),
            Ok(()) => if state.no_open {
                print_views(r.prints@) == seq![line(false, "Worktree created at: "@ + state.path@)]
                    && (r.next matches NewNext::Done(d) && d is Ok)
            } else {
                r.prints@.len() == 0 && (r.next matches NewNext::OpenIde { path } && path
                    == state.path)
            },
        },
{
    match result {
        Err(e) => fail(e),
        Ok(()) => {
            if state.no_open {
                let mut text = owned("Worktree created at: ");
                push_str(&mut text, state.path.as_str());
                say_then(text, NewNext::Done(Ok(())))
            } else {
                go(NewNext::OpenIde { path: state.path })
            }
        },
    }
}

} // verus!
