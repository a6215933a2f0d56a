//! The subcommands of `wt`. Each is a sequence of decisions between pieces
//! of outside work (running git or gh, asking the user, touching the file
//! system); here each decision is a function from what the last piece of
//! outside work returned to what to print and what to do next.

pub mod clean;
pub mod ls;
pub mod new;
pub mod open;
pub mod path;
pub mod prune;
pub mod rm;

use vstd::prelude::*;

use crate::config::LoadedConfig;
use crate::error::{ErrorView, WtError};
use crate::paths::join;
use crate::repo::Print;
use crate::text::{owned, push_char, push_str};

verus! {

/// The index the user picked from a list, or the text of the error that
/// the picker failed with.
pub type Picked = Result<usize, String>;

/// The user's answer to a yes/no question, or the text of the error that
/// the prompt failed with.
pub type Answer = Result<bool, String>;

/// A line of output: `text` and a line end.
pub open spec fn line(to_stderr: bool, text: Seq<char>) -> (bool, Seq<char>) {
    (to_stderr, text + seq!['\n'])
}

/// Prints `text` and a line end.
pub fn print_line(to_stderr: bool, text: String) -> (p: Print)
    ensures
        p@ == line(to_stderr, text@),
{
    let mut t = text;
    push_char(&mut t, '\n');
    Print { to_stderr, text: t }
}

/// Prints an empty line on standard output.
pub fn blank_line() -> (p: Print)
    ensures
        p@ == line(false, Seq::empty()),
{
    print_line(false, String::new())
}

/// Prints a literal and a line end on standard output.
pub fn say(text: &str) -> (p: Print)
    ensures
        p@ == line(false, text@),
{
    print_line(false, owned(text))
}

/// The error for a worktree that is not on disk.
pub open spec fn no_such_worktree(name: Seq<char>, path: Seq<char>) -> ErrorView {
    ErrorView::Message { text: "worktree "@ + name + " does not exist at "@ + path }
}

/// Builds the error for a worktree that is not on disk.
pub fn no_such_worktree_error(name: &str, path: &str) -> (e: WtError)
    ensures
        e@ == no_such_worktree(name@, path@),
{
    let mut text = owned("worktree ");
    push_str(&mut text, name);
    push_str(&mut text, " does not exist at ");
    push_str(&mut text, path);
    WtError::Message { text }
}

/// The error for a failed picker.
pub open spec fn picker_failed(cause: Seq<char>) -> ErrorView {
    ErrorView::Message { text: "picker failed: "@ + cause }
}

/// The error for a failed yes/no prompt.
pub open spec fn prompt_failed(cause: Seq<char>) -> ErrorView {
    ErrorView::Message { text: "prompt failed: "@ + cause }
}

/// An error made of a literal prefix and a value.
pub fn error_with(prefix: &str, value: &str) -> (e: WtError)
    ensures
        e@ == (ErrorView::Message { text: prefix@ + value@ }),
{
    let mut text = owned(prefix);
    push_str(&mut text, value);
    WtError::Message { text }
}

/// The error for an empty worktrees directory when one must be picked.
pub open spec fn no_worktrees(dir: Seq<char>) -> ErrorView {
    ErrorView::Message { text: "no worktrees found in "@ + dir }
}

/// The choices of a worktree picker: the worktree names, or an error when
/// the directory cannot be read or holds none.
pub fn pick_worktree_choices(loaded: &LoadedConfig, names: Result<Vec<String>, WtError>) -> (r:
    Result<Vec<String>, WtError>)
    ensures
        match names {
            Err(e) => r is Err && r->Err_0@ == e@,
            Ok(ns) => if ns@.len() == 0 {
                r is Err && r->Err_0@ == no_worktrees(loaded.worktrees_dir@)
            } else {
                r == Ok::<Vec<String>, WtError>(ns)
            },
        },
{
    match names {
        Err(e) => Err(e),
        Ok(ns) => {
            if ns.len() == 0 {
                Err(error_with("no worktrees found in ", loaded.worktrees_dir.as_str()))
            } else {
                Ok(ns)
            }
        },
    }
}

/// The worktree the user picked from `names`.
pub fn pick_worktree(names: &Vec<String>, picked: &Picked) -> (r: Result<String, WtError>)
    requires
        picked matches Ok(i) ==> i < names@.len(),
    ensures
        match picked {
            Ok(i) => r is Ok && r->Ok_0@ == names@[*i as int]@,
            Err(e) => r is Err && r->Err_0@ == picker_failed(e@),
        },
{
    match picked {
        Ok(i) => Ok(owned(names[*i].as_str())),
        Err(e) => Err(error_with("picker failed: ", e.as_str())),
    }
}

/// The path of the worktree named `name`.
pub open spec fn worktree_path(loaded: LoadedConfig, name: Seq<char>) -> Seq<char> {
    join(loaded.worktrees_dir@, name)
}

} // verus!
