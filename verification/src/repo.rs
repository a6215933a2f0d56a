//! The git operations behind worktree management. Each operation has a
//! function that says which `git` arguments to run, and a function under the
//! operation's own name that says what the operation returns for each way
//! that run can end.

use vstd::prelude::*;
use vstd::utf8::{decode_utf8, encode_utf8, encode_utf8_decode_utf8, encode_utf8_valid_utf8, valid_utf8};

use crate::error::{ErrorView, WtError};
use crate::process::{
    command_line, describe_failure, exit_ok, exit_succeeded, failure_detail, format_command, views,
    Captured, CommandOutput, Finished,
};
use crate::text::{
    contains, is_whitespace, lemma_trim_end_at, lemma_trim_idempotent, lemma_trim_start_at,
    lemma_trimmed_ends, owned, push_str, str_contains, to_chars, trim, trim_end, trim_str, utf8_lossy,
    utf8_lossy_string, utf8_strict, utf8_error_text,
};

verus! {

/// Result of a `git worktree remove` attempt.
#[derive(Debug)]
pub enum RemoveOutcome {
    /// Removed cleanly.
    Removed,
    /// Failed because the worktree has modified or untracked files; needs
    /// `--force`. Holds git's error output.
    NeedsForce(String),
    /// Failed because git does not know the path as a working tree (a
    /// directory on disk whose admin record is gone). Holds git's error
    /// output.
    Orphan(String),
    /// Failed some other way. Holds git's error output.
    Other(String),
}

/// Text to show the user: on standard output or standard error, written
/// as it is (line ends included).
#[derive(Debug)]
pub struct Print {
    pub to_stderr: bool,
    pub text: String,
}

/// The arguments of `git rev-parse --show-toplevel`.
pub fn repo_root_args() -> (r: Vec<String>)
    ensures
        views(r@) == seq!["rev-parse"@, "--show-toplevel"@],
{
    let r = vec![owned("rev-parse"), owned("--show-toplevel")];
    assert(views(r@) == seq!["rev-parse"@, "--show-toplevel"@]);
    r
}

/// The error of a `git` run that could not be started.
pub open spec fn git_spawn_error(args: Seq<Seq<char>>, cause: Seq<char>) -> ErrorView {
    ErrorView::Spawn { context: "spawning "@ + command_line("git"@, args), cause }
}

/// What a `git` run with captured output (`run_git`) comes to: success, or
/// the error for a run that could not start or that failed.
pub open spec fn run_git_result(args: Seq<Seq<char>>, ran: Captured) -> Option<ErrorView> {
    match ran {
        Err(cause) => Some(git_spawn_error(args, cause@)),
        Ok(out) => if exit_ok(out.code) {
            None
        } else {
            Some(
                ErrorView::Failed {
                    command: command_line("git"@, args),
                    detail: failure_detail(out.stderr@, out.code),
                },
            )
        },
    }
}

/// Checks a `git` run with captured output: an error when it could not
/// start or exited unsuccessfully.
pub fn run_git(args: &Vec<String>, ran: &Captured) -> (r: Result<(), WtError>)
    ensures
        match run_git_result(views(args@), *ran) {
            None => r is Ok,
            Some(e) => r is Err && r->Err_0@ == e,
        },
{
    match ran {
        Err(cause) => {
            let mut context = owned("spawning ");
            let line = format_command("git", args);
            push_str(&mut context, line.as_str());
            Err(WtError::Spawn { context, cause: owned(cause.as_str()) })
        },
        Ok(out) => {
            if exit_succeeded(out.code) {
                Ok(())
            } else {
                Err(
                    WtError::Failed {
                        command: format_command("git", args),
                        detail: describe_failure(out),
                    },
                )
            }
        },
    }
}

/// Checks a `git` run whose output went to the terminal: an error when it
/// could not start or exited unsuccessfully.
pub fn run_git_inherit(args: &Vec<String>, ran: &Finished) -> (r: Result<(), WtError>)
    ensures
        match ran {
            Err(cause) => r is Err && r->Err_0@ == git_spawn_error(views(args@), cause@),
            Ok(code) => if exit_ok(*code) {
                r is Ok
            } else {
                r is Err && r->Err_0@ == (ErrorView::Exited {
                    command: command_line("git"@, views(args@)),
                    code: *code,
                })
            },
        },
{
    match ran {
        Err(cause) => {
            let mut context = owned("spawning ");
            let line = format_command("git", args);
            push_str(&mut context, line.as_str());
            Err(WtError::Spawn { context, cause: owned(cause.as_str()) })
        },
        Ok(code) => {
            if exit_succeeded(*code) {
                Ok(())
            } else {
                Err(WtError::Exited { command: format_command("git", args), code: *code })
            }
        },
    }
}

/// What `repo_root` returns for a run of `git rev-parse --show-toplevel`.
pub open spec fn repo_root_result(ran: Captured) -> Result<Seq<char>, ErrorView> {
    match run_git_result(seq!["rev-parse"@, "--show-toplevel"@], ran) {
        Some(e) => Err(e),
        None => match ran {
            Ok(out) => if valid_utf8(out.stdout@) {
                Ok(trim(decode_utf8(out.stdout@)))
            } else {
                Err(ErrorView::Message { text: utf8_error_text(out.stdout@) })
            },
            Err(_) => Err(ErrorView::Message { text: Seq::empty() }),
        },
    }
}

/// The absolute path of the main checkout, from the run of
/// `git rev-parse --show-toplevel`: its output decoded and trimmed.
pub fn repo_root(ran: &Captured) -> (r: Result<String, WtError>)
    ensures
        match repo_root_result(*ran) {
            Ok(root) => r is Ok && r->Ok_0@ == root,
            Err(e) => r is Err && r->Err_0@ == e,
        },
{
    let args = repo_root_args();
    run_git(&args, ran)?;
    match ran {
        Err(_) => Err(WtError::Message { text: owned("") }),
        Ok(out) => match utf8_strict(&out.stdout) {
            Ok(s) => Ok(trim_str(s.as_str())),
            Err(e) => Err(WtError::Message { text: e }),
        },
    }
}

/// A string made of a literal prefix and a value.
pub fn prefixed(prefix: &str, value: &str) -> (r: String)
    ensures
        r@ == prefix@ + value@,
{
    let mut r = owned(prefix);
    push_str(&mut r, value);
    r
}

/// The arguments of `git fetch origin <branch> --quiet`, run (with its
/// failure ignored) before worktrees are created or cleaned.
pub fn fetch_origin_quiet_args(branch: &str) -> (r: Vec<String>)
    ensures
        views(r@) == seq!["fetch"@, "origin"@, branch@, "--quiet"@],
{
    let r = vec![owned("fetch"), owned("origin"), owned(branch), owned("--quiet")];
    assert(views(r@) == seq!["fetch"@, "origin"@, branch@, "--quiet"@]);
    r
}

/// The arguments of `git show-ref --verify --quiet <refspec>`.
pub fn show_ref_args(refspec: String) -> (r: Vec<String>)
    ensures
        views(r@) == seq!["show-ref"@, "--verify"@, "--quiet"@, refspec@],
{
    let r = vec![owned("show-ref"), owned("--verify"), owned("--quiet"), refspec];
    assert(views(r@) == seq!["show-ref"@, "--verify"@, "--quiet"@, refspec@]);
    r
}

/// The arguments that test for a local branch: `git show-ref --verify
/// --quiet refs/heads/<branch>`.
pub fn local_branch_exists_args(branch: &str) -> (r: Vec<String>)
    ensures
        views(r@) == seq!["show-ref"@, "--verify"@, "--quiet"@, "refs/heads/"@ + branch@],
{
    show_ref_args(prefixed("refs/heads/", branch))
}

/// The arguments that test for a branch on `origin`: `git show-ref --verify
/// --quiet refs/remotes/origin/<branch>`.
pub fn remote_branch_exists_args(branch: &str) -> (r: Vec<String>)
    ensures
        views(r@) == seq![
            "show-ref"@,
            "--verify"@,
            "--quiet"@,
            "refs/remotes/origin/"@ + branch@,
        ],
{
    show_ref_args(prefixed("refs/remotes/origin/", branch))
}

/// A probe with output discarded answers yes exactly when it started and
/// exited with code 0.
pub open spec fn probe_succeeded(ran: Finished) -> bool {
    match ran {
        Ok(code) => exit_ok(code),
        Err(_) => false,
    }
}

fn probe(ran: &Finished) -> (b: bool)
    ensures
        b == probe_succeeded(*ran),
{
    match ran {
        Ok(code) => exit_succeeded(*code),
        Err(_) => false,
    }
}

/// Whether the local branch exists, from the run of
/// `local_branch_exists_args`.
pub fn local_branch_exists(ran: &Finished) -> (b: bool)
    ensures
        b == probe_succeeded(*ran),
{
    probe(ran)
}

/// Whether the branch exists on `origin`, from the run of
/// `remote_branch_exists_args`.
pub fn remote_branch_exists(ran: &Finished) -> (b: bool)
    ensures
        b == probe_succeeded(*ran),
{
    probe(ran)
}

/// The arguments of `git worktree add <path> <branch>` (an existing branch).
pub fn worktree_add_existing_args(path: &str, branch: &str) -> (r: Vec<String>)
    ensures
        views(r@) == seq!["worktree"@, "add"@, path@, branch@],
{
    let r = vec![owned("worktree"), owned("add"), owned(path), owned(branch)];
    assert(views(r@) == seq!["worktree"@, "add"@, path@, branch@]);
    r
}

/// The outcome of `git worktree add <path> <branch>`, from its run.
pub fn worktree_add_existing(path: &str, branch: &str, ran: &Finished) -> (r: Result<(), WtError>)
    ensures
        match ran {
            Err(cause) => r is Err && r->Err_0@ == git_spawn_error(
                seq!["worktree"@, "add"@, path@, branch@],
                cause@,
            ),
            Ok(code) => if exit_ok(*code) {
                r is Ok
            } else {
                r is Err && r->Err_0@ == (ErrorView::Exited {
                    command: command_line("git"@, seq!["worktree"@, "add"@, path@, branch@]),
                    code: *code,
                })
            },
        },
{
    let args = worktree_add_existing_args(path, branch);
    run_git_inherit(&args, ran)
}

/// The arguments of `git worktree add <path> -b <branch> --no-track
/// origin/<base>` (a new branch off the base branch).
pub fn worktree_add_new_no_track_args(path: &str, branch: &str, base: &str) -> (r: Vec<String>)
    ensures
        views(r@) == seq![
            "worktree"@,
            "add"@,
            path@,
            "-b"@,
            branch@,
            "--no-track"@,
            "origin/"@ + base@,
        ],
{
    let r = vec![
        owned("worktree"),
        owned("add"),
        owned(path),
        owned("-b"),
        owned(branch),
        owned("--no-track"),
        prefixed("origin/", base),
    ];
    assert(views(r@) == seq![
        "worktree"@,
        "add"@,
        path@,
        "-b"@,
        branch@,
        "--no-track"@,
        "origin/"@ + base@,
    ]);
    r
}

/// The outcome of `git worktree add <path> -b <branch> --no-track
/// origin/<base>`, from its run.
pub fn worktree_add_new_no_track(path: &str, branch: &str, base: &str, ran: &Finished) -> (r:
    Result<(), WtError>)
    ensures
        ({
            let args = seq![
                "worktree"@,
                "add"@,
                path@,
                "-b"@,
                branch@,
                "--no-track"@,
                "origin/"@ + base@,
            ];
            match ran {
                Err(cause) => r is Err && r->Err_0@ == git_spawn_error(args, cause@),
                Ok(code) => if exit_ok(*code) {
                    r is Ok
                } else {
                    r is Err && r->Err_0@ == (ErrorView::Exited {
                        command: command_line("git"@, args),
                        code: *code,
                    })
                },
            }
        }),
{
    let args = worktree_add_new_no_track_args(path, branch, base);
    run_git_inherit(&args, ran)
}

/// The abstract content of a [`RemoveOutcome`].
pub enum OutcomeView {
    Removed,
    NeedsForce(Seq<char>),
    Orphan(Seq<char>),
    Other(Seq<char>),
}

impl View for RemoveOutcome {
    type V = OutcomeView;

    open spec fn view(&self) -> OutcomeView {
        match self {
            RemoveOutcome::Removed => OutcomeView::Removed,
            RemoveOutcome::NeedsForce(m) => OutcomeView::NeedsForce(m@),
            RemoveOutcome::Orphan(m) => OutcomeView::Orphan(m@),
            RemoveOutcome::Other(m) => OutcomeView::Other(m@),
        }
    }
}

impl View for Print {
    type V = (bool, Seq<char>);

    open spec fn view(&self) -> (bool, Seq<char>) {
        (self.to_stderr, self.text@)
    }
}

/// The views of a list of prints.
pub open spec fn print_views(ps: Seq<Print>) -> Seq<(bool, Seq<char>)> {
    ps.map_values(|p: Print| p@)
}

/// The views of a list of prints after a push.
pub proof fn lemma_print_views_push(v: Seq<Print>, x: Print)
    ensures
        print_views(v.push(x)) == print_views(v).push(x@),
{
    assert(print_views(v.push(x)) =~= print_views(v).push(x@));
}

/// How a failed `git worktree remove` is classified from its error output.
pub open spec fn classify_removal(stderr: Seq<char>) -> OutcomeView {
    if contains(stderr, "contains modified or untracked files"@) {
        OutcomeView::NeedsForce(stderr)
    } else if contains(stderr, "is not a working tree"@) {
        OutcomeView::Orphan(stderr)
    } else {
        OutcomeView::Other(stderr)
    }
}

/// What `git worktree remove` reports: the outcome, and the prints that
/// echo git's output.
pub struct RemoveReport {
    pub outcome: RemoveOutcome,
    pub prints: Vec<Print>,
}

/// The arguments of `git worktree remove [--force] <path>`.
pub fn worktree_remove_args(path: &str, force: bool) -> (r: Vec<String>)
    ensures
        views(r@) == (if force {
            seq!["worktree"@, "remove"@, "--force"@, path@]
        } else {
            seq!["worktree"@, "remove"@, path@]
        }),
{
    if force {
        let r = vec![owned("worktree"), owned("remove"), owned("--force"), owned(path)];
        assert(views(r@) == seq!["worktree"@, "remove"@, "--force"@, path@]);
        r
    } else {
        let r = vec![owned("worktree"), owned("remove"), owned(path)];
        assert(views(r@) == seq!["worktree"@, "remove"@, path@]);
        r
    }
}

/// The prints that echo a failed removal: git's standard output (trimmed at
/// the end, on standard output) when it is not blank, then its error output
/// (likewise, on standard error) when it is not blank and the directory is
/// not an orphan.
pub open spec fn failed_removal_prints(stdout: Seq<char>, stderr: Seq<char>) -> Seq<(bool, Seq<char>)> {
    let out_part = if trim(stdout).len() > 0 {
        seq![(false, trim_end(stdout) + seq!['\n'])]
    } else {
        Seq::empty()
    };
    let err_part = if !(classify_removal(stderr) is Orphan) && trim(stderr).len() > 0 {
        seq![(true, trim_end(stderr) + seq!['\n'])]
    } else {
        Seq::empty()
    };
    out_part + err_part
}

/// Trims the end of a string.
pub fn trim_end_str(s: &str) -> (r: String)
    ensures
        r@ == trim_end(s@),
{
    let v = to_chars(s);
    let n = v.len();
    let mut hi: usize = n;
    while hi > 0 && crate::text::is_whitespace_char(v[hi - 1])
        invariant
            hi <= n == v@.len(),
            forall|k: int| hi <= k < n ==> crate::text::is_whitespace(#[trigger] v@[k]),
        decreases hi,
    {
        hi = hi - 1;
    }
    proof {
        crate::text::lemma_trim_end_at(v@, hi as int);
    }
    crate::text::string_of_range(&v, 0, hi)
}

/// A line of text: `s` trimmed at the end, then a line end.
fn line_of(s: &str, to_stderr: bool) -> (p: Print)
    ensures
        p@ == (to_stderr, trim_end(s@) + seq!['\n']),
{
    let mut t = trim_end_str(s);
    crate::text::push_char(&mut t, '\n');
    Print { to_stderr, text: t }
}

/// Whether a string is blank.
fn is_blank(s: &str) -> (b: bool)
    ensures
        b == (trim(s@).len() == 0),
{
    let t = trim_str(s);
    let tv = to_chars(t.as_str());
    tv.len() == 0
}

/// The outcome of `git worktree remove [--force] <path>`, from its run:
/// an error when git could not start; `Removed` (echoing git's combined
/// output when it is not blank) when it succeeded; otherwise the outcome
/// that its error output classifies, with the echo of that output.
pub fn worktree_remove(path: &str, force: bool, ran: &Captured) -> (r: Result<RemoveReport, WtError>)
    ensures
        ({
            let args = if force {
                seq!["worktree"@, "remove"@, "--force"@, path@]
            } else {
                seq!["worktree"@, "remove"@, path@]
            };
            match ran {
                Err(cause) => r is Err && r->Err_0@ == git_spawn_error(args, cause@),
                Ok(out) => r is Ok && {
                    let rep = r->Ok_0;
                    let so = utf8_lossy(out.stdout@);
                    let se = utf8_lossy(out.stderr@);
                    if exit_ok(out.code) {
                        &&& rep.outcome@ == OutcomeView::Removed
                        &&& print_views(rep.prints@) == (if trim(so + se).len() > 0 {
                            seq![(false, so + se)]
                        } else {
                            Seq::empty()
                        })
                    } else {
                        &&& rep.outcome@ == classify_removal(se)
                        &&& print_views(rep.prints@) == failed_removal_prints(so, se)
                    }
                },
            }
        }),
{
    let args = worktree_remove_args(path, force);
    match ran {
        Err(cause) => {
            let mut context = owned("spawning ");
            let line = format_command("git", &args);
            push_str(&mut context, line.as_str());
            Err(WtError::Spawn { context, cause: owned(cause.as_str()) })
        },
        Ok(out) => {
            let so = utf8_lossy_string(&out.stdout);
            let se = utf8_lossy_string(&out.stderr);
            let mut prints: Vec<Print> = Vec::new();
            if exit_succeeded(out.code) {
                let mut combined = owned(so.as_str());
                push_str(&mut combined, se.as_str());
                if !is_blank(combined.as_str()) {
                    prints.push(Print { to_stderr: false, text: combined });
                }
                proof {
                    assert(print_views(prints@) == (if trim(so@ + se@).len() > 0 {
                        seq![(false, so@ + se@)]
                    } else {
                        Seq::<(bool, Seq<char>)>::empty()
                    }));
                }
                return Ok(RemoveReport { outcome: RemoveOutcome::Removed, prints });
            }
            let needs_force = str_contains(se.as_str(), "contains modified or untracked files");
            let orphan = str_contains(se.as_str(), "is not a working tree");
            let outcome = if needs_force {
                RemoveOutcome::NeedsForce(owned(se.as_str()))
            } else if orphan {
                RemoveOutcome::Orphan(owned(se.as_str()))
            } else {
                RemoveOutcome::Other(owned(se.as_str()))
            };
            let suppress = !needs_force && orphan;
            if !is_blank(so.as_str()) {
                prints.push(line_of(so.as_str(), false));
            }
            if !suppress && !is_blank(se.as_str()) {
                prints.push(line_of(se.as_str(), true));
            }
            proof {
                assert(print_views(prints@) == failed_removal_prints(so@, se@));
            }
            Ok(RemoveReport { outcome, prints })
        },
    }
}

/// The arguments of `git rev-parse --abbrev-ref HEAD` (run in a worktree).
pub fn current_branch_args() -> (r: Vec<String>)
    ensures
        views(r@) == seq!["rev-parse"@, "--abbrev-ref"@, "HEAD"@],
{
    let r = vec![owned("rev-parse"), owned("--abbrev-ref"), owned("HEAD")];
    assert(views(r@) == seq!["rev-parse"@, "--abbrev-ref"@, "HEAD"@]);
    r
}

/// The branch that `git rev-parse --abbrev-ref HEAD` names in its output:
/// the trimmed output, unless it is empty or `HEAD` (a detached HEAD).
pub open spec fn branch_named(stdout: Seq<u8>) -> Option<Seq<char>> {
    if valid_utf8(stdout) {
        let t = trim(decode_utf8(stdout));
        if t.len() == 0 || t == "HEAD"@ {
            None
        } else {
            Some(t)
        }
    } else {
        None
    }
}

/// The branch that a run of `git rev-parse --abbrev-ref HEAD` names: none
/// when git could not start or failed, or when `branch_named` finds none.
pub open spec fn branch_of(ran: Captured) -> Option<Seq<char>> {
    match ran {
        Ok(out) => if exit_ok(out.code) {
            branch_named(out.stdout@)
        } else {
            None
        },
        Err(_) => None,
    }
}

/// The branch a worktree is found on is never empty, never `HEAD`, and
/// carries no surrounding whitespace.
pub proof fn lemma_branch_of_named(ran: Captured)
    requires
        branch_of(ran) is Some,
    ensures
        ({
            let b = branch_of(ran)->0;
            b.len() > 0 && b != "HEAD"@ && trim(b) == b
        }),
{
    if let Ok(out) = ran {
        lemma_trim_idempotent(decode_utf8(out.stdout@));
    }
}

/// The branch read from `git rev-parse --abbrev-ref HEAD` is its output
/// exactly, trimmed: whenever the output is UTF-8 whose trim is neither
/// empty nor `HEAD`, that trim is the branch, character for character.
pub proof fn lemma_branch_named_is_trimmed_output(stdout: Seq<u8>)
    requires
        valid_utf8(stdout),
        trim(decode_utf8(stdout)).len() > 0,
        trim(decode_utf8(stdout)) != "HEAD"@,
    ensures
        branch_named(stdout) == Some(trim(decode_utf8(stdout))),
{
}

/// A branch that git prints (followed by a line end) is read back as
/// itself, for every non-empty branch name without surrounding whitespace
/// other than `HEAD`.
pub proof fn lemma_branch_named_round_trip(b: Seq<char>)
    requires
        b.len() > 0,
        trim(b) == b,
        b != "HEAD"@,
    ensures
        branch_named(encode_utf8(b + seq!['\n'])) == Some(b),
{
    let s = b + seq!['\n'];
    encode_utf8_valid_utf8(s);
    encode_utf8_decode_utf8(s);
    lemma_trimmed_ends(b);
    assert(s[0] == b[0]);
    lemma_trim_start_at(s, 0);
    assert(s.subrange(0, s.len() as int) == s);
    assert(is_whitespace(s[s.len() - 1]));
    assert(s[b.len() - 1] == b.last());
    lemma_trim_end_at(s, b.len() as int);
    assert(s.subrange(0, b.len() as int) == b);
}

/// How a failed `git worktree remove` is read: it wants `--force` exactly
/// when git says the worktree "contains modified or untracked files"; it is
/// an orphan exactly when git says the path "is not a working tree" (and
/// not the former); any other failure is `Other`, carrying git's output.
pub proof fn lemma_classify_removal(stderr: Seq<char>)
    ensures
        classify_removal(stderr) is NeedsForce <==> contains(
            stderr,
            "contains modified or untracked files"@,
        ),
        classify_removal(stderr) is Orphan <==> (contains(stderr, "is not a working tree"@)
            && !contains(stderr, "contains modified or untracked files"@)),
        !contains(stderr, "is not a working tree"@) && !contains(
            stderr,
            "contains modified or untracked files"@,
        ) ==> classify_removal(stderr) == OutcomeView::Other(stderr),
        match classify_removal(stderr) {
            OutcomeView::NeedsForce(m) | OutcomeView::Orphan(m) | OutcomeView::Other(m) => m
                == stderr,
            OutcomeView::Removed => false,
        },
{
}

/// The branch shown for a worktree: its current branch, or `(detached)`.
pub open spec fn shown_branch(ran: Captured) -> Seq<char> {
    match branch_of(ran) {
        Some(b) => b,
        None => "(detached)"@,
    }
}

/// The branch shown for a worktree, from the run of `current_branch_args`.
pub fn branch_or_detached(ran: &Captured) -> (r: String)
    ensures
        r@ == shown_branch(*ran),
{
    match current_branch(ran) {
        Some(b) => b,
        None => owned("(detached)"),
    }
}

/// The current branch of a worktree, from the run of
/// `current_branch_args` in it: `None` when the HEAD is detached or git
/// cannot tell.
pub fn current_branch(ran: &Captured) -> (r: Option<String>)
    ensures
        match branch_of(*ran) {
            Some(b) => r is Some && r->0@ == b,
            None => r is None,
        },
{
    match ran {
        Err(_) => None,
        Ok(out) => {
            if !exit_succeeded(out.code) {
                return None;
            }
            let s = match utf8_strict(&out.stdout) {
                Ok(s) => s,
                Err(_) => return None,
            };
            let t = trim_str(s.as_str());
            let tv = to_chars(t.as_str());
            let head = to_chars("HEAD");
            if tv.len() == 0 || crate::gh::chars_eq(&tv, &head) {
                None
            } else {
                Some(t)
            }
        },
    }
}

/// The arguments of `git status --porcelain` (run in a worktree).
pub fn is_dirty_args() -> (r: Vec<String>)
    ensures
        views(r@) == seq!["status"@, "--porcelain"@],
{
    let r = vec![owned("status"), owned("--porcelain")];
    assert(views(r@) == seq!["status"@, "--porcelain"@]);
    r
}

/// Whether a worktree has uncommitted changes, from the run of
/// `is_dirty_args` in it: `git status --porcelain` printed something.
pub fn is_dirty(ran: &Captured) -> (b: bool)
    ensures
        b == (match ran {
            Ok(out) => out.stdout@.len() > 0,
            Err(_) => false,
        }),
{
    match ran {
        Ok(out) => out.stdout.len() > 0,
        Err(_) => false,
    }
}

/// The arguments of `git branch -D <branch>`.
pub fn delete_local_branch_args(branch: &str) -> (r: Vec<String>)
    ensures
        views(r@) == seq!["branch"@, "-D"@, branch@],
{
    let r = vec![owned("branch"), owned("-D"), owned(branch)];
    assert(views(r@) == seq!["branch"@, "-D"@, branch@]);
    r
}

/// The error of a run of `git branch -D <branch>`, if it failed.
pub open spec fn delete_branch_error(branch: Seq<char>, ran: Captured) -> Option<ErrorView> {
    match ran {
        Err(cause) => Some(git_spawn_error(seq!["branch"@, "-D"@, branch], cause@)),
        Ok(out) => if exit_ok(out.code) {
            None
        } else {
            Some(
                ErrorView::Failed {
                    command: "git branch -D "@ + branch,
                    detail: trim(utf8_lossy(out.stderr@)),
                },
            )
        },
    }
}

/// The outcome of `git branch -D <branch>`, from its run.
pub fn delete_local_branch(branch: &str, ran: &Captured) -> (r: Result<(), WtError>)
    ensures
        match delete_branch_error(branch@, *ran) {
            Some(e) => r is Err && r->Err_0@ == e,
            None => r is Ok,
        },
{
    let args = delete_local_branch_args(branch);
    match ran {
        Err(cause) => {
            let mut context = owned("spawning ");
            let line = format_command("git", &args);
            push_str(&mut context, line.as_str());
            Err(WtError::Spawn { context, cause: owned(cause.as_str()) })
        },
        Ok(out) => {
            if exit_succeeded(out.code) {
                Ok(())
            } else {
                let se = utf8_lossy_string(&out.stderr);
                Err(
                    WtError::Failed {
                        command: prefixed("git branch -D ", branch),
                        detail: trim_str(se.as_str()),
                    },
                )
            }
        },
    }
}

/// The arguments of `git worktree prune`.
pub fn worktree_prune_args() -> (r: Vec<String>)
    ensures
        views(r@) == seq!["worktree"@, "prune"@],
{
    let r = vec![owned("worktree"), owned("prune")];
    assert(views(r@) == seq!["worktree"@, "prune"@]);
    r
}

/// The error of a run of `git worktree prune`, if it failed.
pub open spec fn prune_error(ran: Finished) -> Option<ErrorView> {
    match ran {
        Err(cause) => Some(git_spawn_error(seq!["worktree"@, "prune"@], cause@)),
        Ok(code) => if exit_ok(code) {
            None
        } else {
            Some(
                ErrorView::Exited {
                    command: command_line("git"@, seq!["worktree"@, "prune"@]),
                    code: code,
                },
            )
        },
    }
}

/// The outcome of `git worktree prune`, from its run.
pub fn worktree_prune(ran: &Finished) -> (r: Result<(), WtError>)
    ensures
        match prune_error(*ran) {
            Some(e) => r is Err && r->Err_0@ == e,
            None => r is Ok,
        },
{
    let args = worktree_prune_args();
    run_git_inherit(&args, ran)
}

} // verus!
