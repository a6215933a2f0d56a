//! The startup steps run in a new worktree: what each step runs, where,
//! with which environment, what it prints, and how its failures read.

use vstd::prelude::*;

use crate::config::{CommandStep, CopyStep, ScriptStep, Step};
use crate::error::{debug_code, push_debug_code, ErrorView, WtError};
use crate::paths::{is_absolute, join, join_path, path_is_absolute};
use crate::process::{exit_ok, exit_succeeded, Finished};
use crate::repo::Print;
use crate::text::{decimal, owned, push_decimal, push_str};

verus! {

/// Context shared by all steps for a given `wt new` invocation. Used to
/// resolve relative paths (against `repo_root`) and to populate the `WT_*`
/// environment variables exposed to `command` and `script` steps.
pub struct StepContext<'a> {
    pub repo_root: &'a str,
    pub worktree_path: &'a str,
    pub worktree_name: &'a str,
    pub branch: &'a str,
    pub default_branch: &'a str,
}

/// The views of a list of name/value pairs.
pub open spec fn pair_views(ps: Seq<(&'static str, String)>) -> Seq<(Seq<char>, Seq<char>)> {
    ps.map_values(|p: (&'static str, String)| (p.0@, p.1@))
}

impl<'a> StepContext<'a> {
    /// The environment variables of `command` and `script` steps, in order.
    pub open spec fn env_spec(&self) -> Seq<(Seq<char>, Seq<char>)> {
        seq![
            ("WT_PATH"@, self.worktree_path@),
            ("WT_NAME"@, self.worktree_name@),
            ("WT_BRANCH"@, self.branch@),
            ("WT_REPO_ROOT"@, self.repo_root@),
            ("WT_DEFAULT_BRANCH"@, self.default_branch@),
        ]
    }

    /// The environment variables of `command` and `script` steps.
    pub fn env_pairs(&self) -> (r: Vec<(&'static str, String)>)
        ensures
            pair_views(r@) == self.env_spec(),
    {
        let r = vec![
            ("WT_PATH", owned(self.worktree_path)),
            ("WT_NAME", owned(self.worktree_name)),
            ("WT_BRANCH", owned(self.branch)),
            ("WT_REPO_ROOT", owned(self.repo_root)),
            ("WT_DEFAULT_BRANCH", owned(self.default_branch)),
        ];
        assert(pair_views(r@) == self.env_spec());
        r
    }
}

/// How a step is named in progress lines and errors.
pub open spec fn label_of(step: Step) -> Seq<char> {
    match step {
        Step::Copy(s) => "copy "@ + decimal(s.paths@.len()) + " path(s)"@,
        Step::Command(s) => "command `"@ + s.run@ + "`"@,
        Step::Script(s) => "script "@ + s.path@,
    }
}

/// The label of a step.
pub fn step_label(step: &Step) -> (r: String)
    ensures
        r@ == label_of(*step),
{
    match step {
        Step::Copy(s) => {
            let mut r = owned("copy ");
            push_decimal(&mut r, s.paths.len() as u64);
            push_str(&mut r, " path(s)");
            r
        },
        Step::Command(s) => {
            let mut r = owned("command `");
            push_str(&mut r, s.run.as_str());
            push_str(&mut r, "`");
            r
        },
        Step::Script(s) => {
            let mut r = owned("script ");
            push_str(&mut r, s.path.as_str());
            r
        },
    }
}

/// The progress line printed before step `idx` (counted from 0) runs.
pub open spec fn banner_of(idx: nat, step: Step) -> Seq<char> {
    "Step "@ + decimal(idx + 1) + ": "@ + label_of(step) + seq!['\n']
}

/// The context of the error of a failed step `idx` (counted from 0).
pub open spec fn failure_context(idx: nat, step: Step) -> Seq<char> {
    "step "@ + decimal(idx + 1) + " ("@ + label_of(step) + ") failed"@
}

/// What `run_all` does next.
pub enum RunAllNext {
    /// Print `banner`, then run step `index`.
    Run { index: usize, banner: Print },
    /// All steps ran.
    Done,
    /// A step failed: stop with this error (the worktree stays in place).
    Fail(WtError),
}

/// Runs all steps in order and aborts on the first failure. Given how the
/// step before `next` ended (`None` before the first), says what to do next:
/// when that step failed, stop with its error in the context of the step;
/// otherwise run step `next`, or finish when there is none.
pub fn run_all(steps: &Vec<Step>, next: usize, previous: Option<WtError>) -> (r: RunAllNext)
    requires
        next <= steps@.len(),
        previous is Some ==> next > 0,
    ensures
        match previous {
            Some(e) => r matches RunAllNext::Fail(f) && f@ == (ErrorView::Context {
                context: failure_context((next - 1) as nat, steps@[next - 1]),
                source: Box::new(e@),
            }),
            None => if next < steps@.len() {
                r matches RunAllNext::Run { index, banner } && index == next && banner@ == (
                false,
                banner_of(next as nat, steps@[next as int]),
            )
            } else {
                r is Done
            },
        },
{
    match previous {
        Some(e) => {
            let idx = next - 1;
            let mut context = owned("step ");
            push_decimal(&mut context, next as u64);
            push_str(&mut context, " (");
            let label = step_label(&steps[idx]);
            push_str(&mut context, label.as_str());
            push_str(&mut context, ") failed");
            RunAllNext::Fail(WtError::with_context(context, e))
        },
        None => {
            if next < steps.len() {
                let mut text = owned("Step ");
                push_decimal(&mut text, next as u64 + 1);
                push_str(&mut text, ": ");
                let label = step_label(&steps[next]);
                push_str(&mut text, label.as_str());
                crate::text::push_char(&mut text, '\n');
                RunAllNext::Run { index: next, banner: Print { to_stderr: false, text } }
            } else {
                RunAllNext::Done
            }
        },
    }
}

/// What a step asks for.
pub enum StepPlan {
    /// Copy each of these paths (relative to the repository root) from the
    /// main checkout to the same place in the worktree.
    Copy { paths: Vec<String> },
    /// Run `<shell> -c <run>` in the worktree with the step environment.
    Command { run: String },
    /// Run the script at `script_path` (optional or not) with bash in the
    /// worktree, with the step environment, when it exists.
    Script { path: String, script_path: String, optional: bool },
}

/// Where a script step's script is: its path as given when absolute,
/// otherwise joined to the repository root.
pub open spec fn script_path_of(repo_root: Seq<char>, path: Seq<char>) -> Seq<char> {
    if is_absolute(path) {
        path
    } else {
        join(repo_root, path)
    }
}

/// Says what one step asks for.
pub fn run_one(ctx: &StepContext, step: &Step) -> (r: StepPlan)
    ensures
        match *step {
            Step::Copy(s) => r matches StepPlan::Copy { paths } && paths@ == s.paths@,
            Step::Command(s) => r matches StepPlan::Command { run } && run@ == s.run@,
            Step::Script(s) => r matches StepPlan::Script { path, script_path, optional }
                && path@ == s.path@ && optional == s.optional && script_path@ == script_path_of(
                ctx.repo_root@,
                s.path@,
            ),
        },
{
    match step {
        Step::Copy(s) => {
            let mut paths: Vec<String> = Vec::new();
            let mut i: usize = 0;
            while i < s.paths.len()
                invariant
                    i <= s.paths@.len(),
                    paths@ == s.paths@.take(i as int),
                decreases s.paths@.len() - i,
            {
                paths.push(s.paths[i].clone());
                assert(paths@ == s.paths@.take(i + 1));
                i = i + 1;
            }
            assert(s.paths@.take(s.paths@.len() as int) == s.paths@);
            StepPlan::Copy { paths }
        },
        Step::Command(s) => StepPlan::Command { run: owned(s.run.as_str()) },
        Step::Script(s) => {
            let script_path = if path_is_absolute(s.path.as_str()) {
                owned(s.path.as_str())
            } else {
                join_path(ctx.repo_root, s.path.as_str())
            };
            StepPlan::Script { path: owned(s.path.as_str()), script_path, optional: s.optional }
        },
    }
}

/// What is at a source path of a copy step.
pub enum SourceKind {
    Directory,
    File,
    Nothing,
}

/// What to do for one path of a copy step.
pub enum CopyAction {
    /// Print `banner`, then copy the directory `from` recursively to `to`;
    /// its failure reads in `context`.
    Directory { banner: Print, from: String, to: String, context: String },
    /// Print `banner`, create the parent directories of `to`, then copy the
    /// file `from` to `to`.
    File { banner: Print, from: String, to: String },
    /// The source does not exist: skip it silently.
    Skip,
}

/// What to do for the path `rel` of a copy step, given what is at its source
/// in the main checkout.
pub fn run_copy(ctx: &StepContext, rel: &str, kind: SourceKind) -> (r: CopyAction)
    ensures
        match kind {
            SourceKind::Directory => r matches CopyAction::Directory { banner, from, to, context }
                && banner@ == (false, "  copying directory "@ + rel@ + seq!['\n']) && from@ == join(
                ctx.repo_root@,
                rel@,
            ) && to@ == join(ctx.worktree_path@, rel@) && context@ == "copying directory "@
                + rel@,
            SourceKind::File => r matches CopyAction::File { banner, from, to } && banner@ == (
                false,
                "  copying file "@ + rel@ + seq!['\n'],
            ) && from@ == join(ctx.repo_root@, rel@) && to@ == join(ctx.worktree_path@, rel@),
            SourceKind::Nothing => r is Skip,
        },
{
    let from = join_path(ctx.repo_root, rel);
    let to = join_path(ctx.worktree_path, rel);
    match kind {
        SourceKind::Directory => {
            let mut text = owned("  copying directory ");
            push_str(&mut text, rel);
            crate::text::push_char(&mut text, '\n');
            let mut context = owned("copying directory ");
            push_str(&mut context, rel);
            CopyAction::Directory { banner: Print { to_stderr: false, text }, from, to, context }
        },
        SourceKind::File => {
            let mut text = owned("  copying file ");
            push_str(&mut text, rel);
            crate::text::push_char(&mut text, '\n');
            CopyAction::File { banner: Print { to_stderr: false, text }, from, to }
        },
        SourceKind::Nothing => CopyAction::Skip,
    }
}

/// The outcome of a command step, from the run of `<shell> -c <run>`.
pub fn run_command(step: &CommandStep, ran: &Finished) -> (r: Result<(), WtError>)
    ensures
        match ran {
            Err(cause) => r is Err && r->Err_0@ == (ErrorView::Context {
                context: "spawning shell for command `"@ + step.run@ + "`"@,
                source: Box::new(ErrorView::Message { text: cause@ }),
            }),
            Ok(code) => if exit_ok(*code) {
                r is Ok
            } else {
                r is Err && r->Err_0@ == (ErrorView::Message {
                    text: "command `"@ + step.run@ + "` exited with status "@ + debug_code(*code),
                })
            },
        },
{
    match ran {
        Err(cause) => {
            let mut context = owned("spawning shell for command `");
            push_str(&mut context, step.run.as_str());
            push_str(&mut context, "`");
            Err(WtError::with_context(context, WtError::message_error(owned(cause.as_str()))))
        },
        Ok(code) => {
            if exit_succeeded(*code) {
                Ok(())
            } else {
                let mut text = owned("command `");
                push_str(&mut text, step.run.as_str());
                push_str(&mut text, "` exited with status ");
                push_debug_code(&mut text, *code);
                Err(WtError::Message { text })
            }
        },
    }
}

/// What a script step does once it is known whether the script exists.
pub enum ScriptNext {
    /// Run `bash <script_path>` in the worktree.
    Run,
    /// Print `note` and treat the step as done.
    Skip { note: Print },
    /// Fail with this error.
    Fail(WtError),
}

/// What a script step does, given whether its script was found: run it when
/// it was; otherwise skip it with a note when it is optional, or fail.
pub fn run_script(step: &ScriptStep, script_path: &str, found: bool) -> (r: ScriptNext)
    ensures
        if found {
            (r is Run)
        } else if step.optional {
            r matches ScriptNext::Skip { note } && note@ == (
                false,
                "  script "@ + step.path@ + " not found; skipping (optional)\n"@,
            )
        } else {
            r matches ScriptNext::Fail(e) && e@ == (ErrorView::Message {
                text: "script not found: "@ + script_path@,
            })
        },
{
    if found {
        ScriptNext::Run
    } else if step.optional {
        let mut text = owned("  script ");
        push_str(&mut text, step.path.as_str());
        push_str(&mut text, " not found; skipping (optional)\n");
        ScriptNext::Skip { note: Print { to_stderr: false, text } }
    } else {
        let mut text = owned("script not found: ");
        push_str(&mut text, script_path);
        ScriptNext::Fail(WtError::Message { text })
    }
}

/// The outcome of a script step, from the run of `bash <script_path>`.
pub fn script_finished(script_path: &str, ran: &Finished) -> (r: Result<(), WtError>)
    ensures
        match ran {
            Err(cause) => r is Err && r->Err_0@ == (ErrorView::Context {
                context: "spawning bash "@ + script_path@,
                source: Box::new(ErrorView::Message { text: cause@ }),
            }),
            Ok(code) => if exit_ok(*code) {
                r is Ok
            } else {
                r is Err && r->Err_0@ == (ErrorView::Message {
                    text: "script "@ + script_path@ + " exited with status "@ + debug_code(*code),
                })
            },
        },
{
    match ran {
        Err(cause) => {
            let mut context = owned("spawning bash ");
            push_str(&mut context, script_path);
            Err(WtError::with_context(context, WtError::message_error(owned(cause.as_str()))))
        },
        Ok(code) => {
            if exit_succeeded(*code) {
                Ok(())
            } else {
                let mut text = owned("script ");
                push_str(&mut text, script_path);
                push_str(&mut text, " exited with status ");
                push_debug_code(&mut text, *code);
                Err(WtError::Message { text })
            }
        },
    }
}

} // verus!
