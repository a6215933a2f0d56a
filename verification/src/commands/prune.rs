//! `wt prune`: prune git's record of worktree directories that no longer
//! exist.

use vstd::prelude::*;

use crate::config::LoadedConfig;
use crate::error::WtError;
use crate::process::views;
use crate::repo::worktree_prune_args;

verus! {

/// What `wt prune` does once the configuration is loaded.
pub enum PruneNext {
    /// Run `git <args>` in `repo_root`, its output to the terminal; its
    /// outcome (`repo::worktree_prune`) ends the command.
    Prune { repo_root: String, args: Vec<String> },
    /// End the command.
    Done(Result<(), WtError>),
}

/// `wt prune`, given the loaded configuration: run `git worktree prune` in
/// the repository root.
pub fn run(loaded: Result<LoadedConfig, WtError>) -> (r: PruneNext)
    ensures
        match loaded {
            Err(e) => r matches PruneNext::Done(d) && d is Err && d->Err_0@ == e@,
            Ok(l) => r matches PruneNext::Prune { repo_root, args } && repo_root == l.repo_root
                && views(args@) == seq!["worktree"@, "prune"@],
        },
{
    match loaded {
        Err(e) => PruneNext::Done(Err(e)),
        Ok(l) => PruneNext::Prune { repo_root: l.repo_root, args: worktree_prune_args() },
    }
}

} // verus!
