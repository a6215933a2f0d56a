//! The arguments of the `wt` subcommands.

use vstd::prelude::*;

verus! {

/// Arguments of `wt new`.
#[derive(Debug)]
pub struct NewArgs {
    /// The branch name. Slashes are converted to hyphens for the directory name.
    pub branch: String,
    /// Skip opening the IDE after the worktree is created.
    pub no_open: bool,
}

/// Arguments of `wt rm`.
#[derive(Debug)]
pub struct RmArgs {
    /// The worktree directory name. `None` picks interactively.
    pub name: Option<String>,
    /// Select one or more worktrees to remove, then delete them all at the end.
    pub interactive: bool,
    /// Force-remove without prompting on dirty/untracked files.
    pub force: bool,
}

/// Arguments of `wt clean`.
#[derive(Debug)]
pub struct CleanArgs {
    /// Show what would be cleaned, but don't remove anything.
    pub dry_run: bool,
    /// Skip the final confirmation prompt.
    pub yes: bool,
    /// Also clean worktrees whose PRs were closed without being merged.
    pub include_closed: bool,
}

/// Arguments of `wt ls`.
#[derive(Debug)]
pub struct LsArgs {
    /// Include dirty status and PR status.
    pub rich: bool,
}

/// Arguments of `wt path`.
#[derive(Debug)]
pub struct PathArgs {
    /// The worktree directory name.
    pub name: String,
}

/// Arguments of `wt open`.
#[derive(Debug)]
pub struct OpenArgs {
    /// The worktree directory name. `None` picks interactively.
    pub name: Option<String>,
}

} // verus!
