//! Opening a worktree in the Cursor editor: what to print and whether to
//! launch it, given whether `cursor` is on the `PATH` and how it ended.

use vstd::prelude::*;

use crate::commands::{line, print_line, say};
use crate::error::{debug_code, push_debug_code, ErrorView, WtError};
use crate::process::{exit_ok, exit_succeeded, Finished};
use crate::repo::{print_views, Print};
use crate::text::{owned, push_str};

verus! {

/// What opening a worktree in Cursor does.
pub enum IdeNext {
    /// `cursor` is not on the `PATH`: print these and end successfully.
    Skip { prints: Vec<Print> },
    /// Print `banner`, then run `cursor <path>` and pass how it ended to
    /// `cursor_finished`.
    Launch { banner: Print, path: String },
}

/// Opens the worktree at `path` in Cursor, given whether the `cursor`
/// command was found on the `PATH`: when it was not, warn and print the
/// path so the user can open it by hand; otherwise launch it.
pub fn open_in_cursor(path: &str, cursor_found: bool) -> (r: IdeNext)
    ensures
        if cursor_found {
            r matches IdeNext::Launch { banner, path: p } && banner@ == line(
                false,
                "Opening worktree in Cursor..."@,
            ) && p@ == path@
        } else {
            r matches IdeNext::Skip { prints } && print_views(prints@) == seq![
                line(true, "warning: `cursor` command not found on PATH; skipping IDE launch."@),
                line(false, "Worktree at: "@ + path@),
            ]
        },
{
    if cursor_found {
        IdeNext::Launch { banner: say("Opening worktree in Cursor..."), path: owned(path) }
    } else {
        let warning = print_line(
            true,
            owned("warning: `cursor` command not found on PATH; skipping IDE launch."),
        );
        let mut text = owned("Worktree at: ");
        push_str(&mut text, path);
        let prints = vec![warning, print_line(false, text)];
        assert(print_views(prints@) =~= seq![
            line(true, "warning: `cursor` command not found on PATH; skipping IDE launch."@),
            line(false, "Worktree at: "@ + path@),
        ]);
        IdeNext::Skip { prints }
    }
}

/// How opening the worktree at `path` ends, from the run of `cursor
/// <path>`: an error when it could not start; a warning (the worktree still
/// stands) when it exited unsuccessfully; otherwise nothing to say.
pub fn cursor_finished(path: &str, ran: &Finished) -> (r: Result<Vec<Print>, WtError>)
    ensures
        match ran {
            Err(cause) => r is Err && r->Err_0@ == (ErrorView::Context {
                context: "spawning cursor "@ + path@,
                source: Box::new(ErrorView::Message { text: cause@ }),
            }),
            Ok(code) => r is Ok && print_views(r->Ok_0@) == if exit_ok(*code) {
                Seq::empty()
            } else {
                seq![
                    line(
                        true,
                        "warning: cursor exited with status "@ + debug_code(*code)
                            + "; worktree at: "@ + path@,
                    ),
                ]
            },
        },
{
    match ran {
        Err(cause) => {
            let mut context = owned("spawning cursor ");
            push_str(&mut context, path);
            Err(WtError::with_context(context, WtError::message_error(owned(cause.as_str()))))
        },
        Ok(code) => {
            if exit_succeeded(*code) {
                let prints: Vec<Print> = Vec::new();
                assert(print_views(prints@) =~= Seq::empty());
                Ok(prints)
            } else {
                let mut text = owned("warning: cursor exited with status ");
                push_debug_code(&mut text, *code);
                push_str(&mut text, "; worktree at: ");
                push_str(&mut text, path);
                let prints = vec![print_line(true, text)];
                assert(print_views(prints@) =~= seq![
                    line(
                        true,
                        "warning: cursor exited with status "@ + debug_code(*code)
                            + "; worktree at: "@ + path@,
                    ),
                ]);
                Ok(prints)
            }
        },
    }
}

} // verus!
