//! `wt path`: print the absolute path to a worktree.

use vstd::prelude::*;

use crate::cli::PathArgs;
use crate::commands::{line, no_such_worktree, no_such_worktree_error, print_line, worktree_path};
use crate::config::LoadedConfig;
use crate::error::WtError;
use crate::repo::Print;

verus! {

/// What `wt path` does next.
pub enum PathNext {
    /// Test whether `path` exists, then call `path_found`.
    CheckExists { name: String, path: String },
    /// End the command.
    Done(Result<(), WtError>),
}

/// `wt path`, given the loaded configuration: check that the worktree
/// named in the arguments is on disk.
pub fn run(args: PathArgs, loaded: Result<LoadedConfig, WtError>) -> (r: PathNext)
    ensures
        match loaded {
            Err(e) => r matches PathNext::Done(d) && d is Err && d->Err_0@ == e@,
            Ok(l) => r matches PathNext::CheckExists { name, path } && name == args.name
                && path@ == worktree_path(l, args.name@),
        },
{
    match loaded {
        Err(e) => PathNext::Done(Err(e)),
        Ok(l) => {
            let path = l.worktree_path_for_name(args.name.as_str());
            PathNext::CheckExists { name: args.name, path }
        },
    }
}

/// `wt path` once it is known whether the worktree exists: print its path,
/// or fail.
pub fn path_found(name: &str, path: String, found: bool) -> (r: Result<Print, WtError>)
    ensures
        if found {
            r is Ok && r->Ok_0@ == line(false, path@)
        } else {
            r is Err && r->Err_0@ == no_such_worktree(name@, path@)
        },
{
    if found {
        Ok(print_line(false, path))
    } else {
        Err(no_such_worktree_error(name, path.as_str()))
    }
}

} // verus!
