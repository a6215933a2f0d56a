//! `wt open`: open the IDE for an existing worktree without re-running
//! steps.

use vstd::prelude::*;

use crate::cli::OpenArgs;
use crate::commands::{
    no_such_worktree, no_such_worktree_error, pick_worktree, pick_worktree_choices, picker_failed,
    worktree_path, Picked,
};
use crate::config::LoadedConfig;
use crate::error::WtError;
use crate::text::owned;

verus! {

/// The prompt of the worktree picker of `wt open`.
pub open spec fn open_prompt() -> Seq<char> {
    "Select a worktree to open"@
}

/// What `wt open` does next.
pub enum OpenNext {
    /// List the worktree names (`LoadedConfig::list_worktree_names`), then
    /// call `names_listed`.
    ListWorktrees { loaded: LoadedConfig },
    /// Let the user pick one of `items` (the first preselected), then call
    /// `picked`.
    Pick { loaded: LoadedConfig, prompt: String, items: Vec<String> },
    /// Test whether `path` exists, then call `checked`.
    CheckExists { name: String, path: String },
    /// Open the IDE on `path`; its outcome ends the command.
    OpenIde { path: String },
    /// End the command.
    Done(Result<(), WtError>),
}

/// Where `wt open` goes once the worktree name is known.
pub open spec fn check_name(l: LoadedConfig, name: Seq<char>, r: OpenNext) -> bool {
    r matches OpenNext::CheckExists { name: n, path } && n@ == name && path@ == worktree_path(
        l,
        name,
    )
}

fn check(l: &LoadedConfig, name: String) -> (r: OpenNext)
    ensures
        check_name(*l, name@, r),
{
    let path = l.worktree_path_for_name(name.as_str());
    OpenNext::CheckExists { name, path }
}

/// `wt open`, given the loaded configuration: the named worktree, or a
/// picker when none is named.
pub fn run(args: OpenArgs, loaded: Result<LoadedConfig, WtError>) -> (r: OpenNext)
    ensures
        match loaded {
            Err(e) => r matches OpenNext::Done(d) && d is Err && d->Err_0@ == e@,
            Ok(l) => match args.name {
                Some(n) => check_name(l, n@, r),
                None => r matches OpenNext::ListWorktrees { loaded } && loaded == l,
            },
        },
{
    match loaded {
        Err(e) => OpenNext::Done(Err(e)),
        Ok(l) => match args.name {
            Some(n) => check(&l, n),
            None => OpenNext::ListWorktrees { loaded: l },
        },
    }
}

/// `wt open` once the worktree names are listed: pick one of them, or fail
/// when there are none.
pub fn names_listed(loaded: LoadedConfig, names: Result<Vec<String>, WtError>) -> (r: OpenNext)
    ensures
        match names {
            Err(e) => r matches OpenNext::Done(d) && d is Err && d->Err_0@ == e@,
            Ok(ns) => if ns@.len() == 0 {
                r matches OpenNext::Done(d) && d is Err && d->Err_0@
                    == crate::commands::no_worktrees(loaded.worktrees_dir@)
            } else {
                r matches OpenNext::Pick { loaded: l, prompt, items } && l == loaded && prompt@
                    == open_prompt() && items == ns
            },
        },
{
    match pick_worktree_choices(&loaded, names) {
        Err(e) => OpenNext::Done(Err(e)),
        Ok(items) => OpenNext::Pick { loaded, prompt: owned("Select a worktree to open"), items },
    }
}

/// `wt open` once the user picked from `items`.
pub fn picked(loaded: LoadedConfig, items: Vec<String>, choice: Picked) -> (r: OpenNext)
    requires
        choice matches Ok(i) ==> i < items@.len(),
    ensures
        match choice {
            Ok(i) => check_name(loaded, items@[i as int]@, r),
            Err(e) => r matches OpenNext::Done(d) && d is Err && d->Err_0@ == picker_failed(e@),
        },
{
    match pick_worktree(&items, &choice) {
        Ok(name) => check(&loaded, name),
        Err(e) => OpenNext::Done(Err(e)),
    }
}

/// `wt open` once it is known whether the worktree exists: open it, or
/// fail.
pub fn checked(name: &str, path: String, found: bool) -> (r: OpenNext)
    ensures
        if found {
            r matches OpenNext::OpenIde { path: p } && p == path
        } else {
            r matches OpenNext::Done(d) && d is Err && d->Err_0@ == no_such_worktree(name@, path@)
        },
{
    if found {
        OpenNext::OpenIde { path }
    } else {
        OpenNext::Done(Err(no_such_worktree_error(name, path.as_str())))
    }
}

} // verus!
