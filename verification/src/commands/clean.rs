//! `wt clean`: remove all worktrees whose branches have a merged pull
//! request (or, when asked, a closed one).

use vstd::prelude::*;

use crate::cli::CleanArgs;
use crate::commands::{blank_line, error_with, line, print_line, prompt_failed, say, worktree_path, Answer};
use crate::config::LoadedConfig;
use crate::paths::join;
use crate::error::{ErrorView, WtError};
use crate::gh::{has_pr_in_state, has_pr_in_state_args};
use crate::process::{views, Captured};
use crate::repo::{
    branch_of, current_branch, delete_local_branch, delete_local_branch_args,
    fetch_origin_quiet_args, lemma_print_views_push, print_views, worktree_remove_args,
    OutcomeView, Print, RemoveOutcome, RemoveReport,
};
use crate::style::{dimmed, green, yellow};
use crate::text::{decimal, owned, push_decimal, push_str, trim, trim_str};

verus! {

/// A worktree whose branch qualifies for cleanup.
#[derive(Debug)]
pub struct Candidate {
    pub dir_name: String,
    pub branch: String,
}

/// How far `wt clean` has come.
pub struct Cleaning {
    pub loaded: LoadedConfig,
    pub args: CleanArgs,
    /// The names of all worktrees, in order.
    pub names: Vec<String>,
    /// The index of the next worktree to look at, or (once all were looked
    /// at) of the next candidate to remove.
    pub index: usize,
    /// The worktrees found to qualify, in order.
    pub candidates: Vec<Candidate>,
    /// Some removal failed.
    pub had_errors: bool,
}

/// What `wt clean` does next.
pub enum CleanNext {
    /// List the worktree names, then call `listed`.
    ListWorktrees { loaded: LoadedConfig, args: CleanArgs },
    /// Run `git <args>` in `repo_root` quietly, ignoring how it ends, then
    /// call `fetched`.
    Fetch { state: Cleaning, repo_root: String, args: Vec<String> },
    /// Run `git rev-parse --abbrev-ref HEAD` in `path` with output
    /// captured, then call `branch_found`.
    QueryBranch { state: Cleaning, path: String },
    /// Run `gh <args>` with output captured, then call `merged_checked`
    /// (`closed` false) or `closed_checked` (`closed` true).
    QueryPr { state: Cleaning, branch: String, closed: bool, args: Vec<String> },
    /// Ask `prompt` (default no), then call `confirmed`.
    Confirm { state: Cleaning, prompt: String },
    /// Run `git <args>` in the repository root with output captured, then
    /// call `cleanup_removed` with `repo::worktree_remove` of it.
    Remove { state: Cleaning, path: String, args: Vec<String> },
    /// Run `git <args>` in the repository root with output captured, then
    /// call `branch_deleted`.
    DeleteBranch { state: Cleaning, args: Vec<String> },
    /// End the command.
    Done(Result<(), WtError>),
}

/// What to print, then what to do.
pub struct CleanStep {
    pub prints: Vec<Print>,
    pub next: CleanNext,
}

/// The views of a list of candidates: (directory name, branch).
pub open spec fn candidate_views(cs: Seq<Candidate>) -> Seq<(Seq<char>, Seq<char>)> {
    cs.map_values(|c: Candidate| (c.dir_name@, c.branch@))
}

/// The divider line of the summaries.
pub open spec fn divider() -> Seq<char> {
    "=========================================="@
}

/// `wt clean`, given the loaded configuration: announce the check, then
/// list the worktrees.
pub fn run(args: CleanArgs, loaded: Result<LoadedConfig, WtError>) -> (r: CleanStep)
    ensures
        match loaded {
            Err(e) => r.prints@.len() == 0 && (r.next matches CleanNext::Done(d) && d is Err
                && d->Err_0@ == e@),
            Ok(l) => print_views(r.prints@) == seq![
                line(false, "Checking for worktrees with merged branches..."@),
                line(false, Seq::empty()),
            ] && (r.next matches CleanNext::ListWorktrees { loaded, args: a } && loaded == l && a
                == args),
        },
{
    match loaded {
        Err(e) => CleanStep { prints: Vec::new(), next: CleanNext::Done(Err(e)) },
        Ok(l) => {
            let prints = vec![say("Checking for worktrees with merged branches..."), blank_line()];
            assert(print_views(prints@) =~= seq![
                line(false, "Checking for worktrees with merged branches..."@),
                line(false, Seq::empty()),
            ]);
            CleanStep { prints, next: CleanNext::ListWorktrees { loaded: l, args } }
        },
    }
}

/// `wt clean` once the worktrees are listed: nothing to do when there are
/// none; otherwise fetch the default branch first.
pub fn listed(loaded: LoadedConfig, args: CleanArgs, names: Result<Vec<String>, WtError>) -> (r:
    CleanStep)
    ensures
        match names {
            Err(e) => r.prints@.len() == 0 && (r.next matches CleanNext::Done(d) && d is Err
                && d->Err_0@ == e@),
            Ok(ns) => if ns@.len() == 0 {
                print_views(r.prints@) == seq![
                    line(false, "No worktrees found in "@ + loaded.worktrees_dir@),
                ] && (r.next matches CleanNext::Done(d) && d is Ok)
            } else {
                print_views(r.prints@) == seq![line(false, "Fetching latest from origin..."@)] && (
                r.next matches CleanNext::Fetch { state, repo_root, args: fa } && state.loaded
                    == loaded && state.args == args && state.names == ns && state.index == 0
                    && state.candidates@.len() == 0 && !state.had_errors && repo_root@
                    == loaded.repo_root@ && views(fa@) == seq![
                    "fetch"@,
                    "origin"@,
                    loaded.config.default_branch@,
                    "--quiet"@,
                ])
            },
        },
{
    match names {
        Err(e) => CleanStep { prints: Vec::new(), next: CleanNext::Done(Err(e)) },
        Ok(ns) => {
            if ns.len() == 0 {
                let mut text = owned("No worktrees found in ");
                push_str(&mut text, loaded.worktrees_dir.as_str());
                let prints = vec![print_line(false, text)];
                assert(print_views(prints@) =~= seq![
                    line(false, "No worktrees found in "@ + loaded.worktrees_dir@),
                ]);
                return CleanStep { prints, next: CleanNext::Done(Ok(())) };
            }
            let prints = vec![say("Fetching latest from origin...")];
            assert(print_views(prints@) =~= seq![line(false, "Fetching latest from origin..."@)]);
            let fa = fetch_origin_quiet_args(loaded.config.default_branch.as_str());
            let repo_root = owned(loaded.repo_root.as_str());
            CleanStep {
                prints,
                next: CleanNext::Fetch {
                    state: Cleaning {
                        loaded,
                        args,
                        names: ns,
                        index: 0,
                        candidates: Vec::new(),
                        had_errors: false,
                    },
                    repo_root,
                    args: fa,
                },
            }
        },
    }
}

/// The state is that of `s` with `index` moved to `i` and candidates `cs`.
pub open spec fn same_but(s: Cleaning, t: Cleaning, i: int, cs: Seq<(Seq<char>, Seq<char>)>) -> bool {
    t.loaded == s.loaded && t.args == s.args && t.names == s.names && t.index == i
        && candidate_views(t.candidates@) == cs && t.had_errors == s.had_errors
}

/// The summary of the candidates.
pub open spec fn candidate_lines(l: LoadedConfig, cs: Seq<(Seq<char>, Seq<char>)>) -> Seq<(bool, Seq<char>)>
    decreases cs.len(),
{
    if cs.len() == 0 {
        Seq::empty()
    } else {
        let i = cs.len() - 1;
        candidate_lines(l, cs.drop_last()) + seq![
            line(false, Seq::empty()),
            line(false, "["@ + decimal(i as nat + 1) + "] "@ + cs[i].0),
            line(false, "    Branch: "@ + cs[i].1),
            line(false, "    Path:   "@ + worktree_path(l, cs[i].0)),
        ]
    }
}

/// The lines that start the removals.
pub open spec fn cleanup_header() -> Seq<(bool, Seq<char>)> {
    seq![line(false, Seq::empty()), line(false, "Starting cleanup..."@), line(false, Seq::empty())]
}

/// After `before` was printed, `wt clean` goes on from state `s` (whose
/// index says how many worktrees were looked at): look at the next one;
/// or, after the last, report that nothing qualifies; or summarize the
/// candidates and stop on a dry run, ask unless `--yes`, or start removing.
pub open spec fn scans(s: Cleaning, before: Seq<(bool, Seq<char>)>, r: CleanStep) -> bool {
    if s.index < s.names@.len() {
        print_views(r.prints@) == before && (r.next matches CleanNext::QueryBranch { state, path }
            && state == s && path@ == worktree_path(s.loaded, s.names@[s.index as int]@))
    } else if s.candidates@.len() == 0 {
        print_views(r.prints@) == before + seq![
            line(false, Seq::empty()),
            line(false, "No qualifying worktrees found. Nothing to clean up."@),
        ] && (r.next matches CleanNext::Done(d) && d is Ok)
    } else {
        let cs = candidate_views(s.candidates@);
        let summary = before + seq![
            line(false, Seq::empty()),
            line(false, divider()),
            line(false, "Found "@ + decimal(cs.len()) + " worktree(s) to clean up:"@),
            line(false, divider()),
        ] + candidate_lines(s.loaded, cs) + seq![line(false, Seq::empty())];
        if s.args.dry_run {
            print_views(r.prints@) == summary + seq![
                line(false, "--dry-run: not removing anything."@),
            ] && (r.next matches CleanNext::Done(d) && d is Ok)
        } else if !s.args.yes {
            print_views(r.prints@) == summary + seq![line(false, divider())] && (
            r.next matches CleanNext::Confirm { state, prompt } && same_but(s, state, 0, cs)
                && prompt@ == "Proceed with cleanup?"@)
        } else {
            removes(s, 0, summary + cleanup_header(), r)
        }
    }
}

/// Every worktree `wt clean` removes is removed with `--force` (its pull
/// request is merged or closed, so what is left in it is cruft): whenever
/// it goes on to remove candidate `i`, it runs exactly `git worktree remove
/// --force <worktrees_dir>/<dir_name>` for that candidate.
pub proof fn lemma_clean_removal_forced(s: Cleaning, i: int, before: Seq<(bool, Seq<char>)>, r: CleanStep)
    requires
        0 <= i < s.candidates@.len(),
        removes(s, i, before, r),
    ensures
        r.next matches CleanNext::Remove { path, args, .. } && path@ == join(
            s.loaded.worktrees_dir@,
            s.candidates@[i].dir_name@,
        ) && views(args@) == seq!["worktree"@, "remove"@, "--force"@, path@],
{
}

/// `wt clean` ends in failure, with "one or more worktrees failed to clean
/// up", exactly when some removal failed; once every candidate was tried
/// it runs nothing more.
pub proof fn lemma_clean_end_reports_failures(s: Cleaning, before: Seq<(bool, Seq<char>)>, r: CleanStep)
    requires
        removes(s, s.candidates@.len() as int, before, r),
    ensures
        r.next matches CleanNext::Done(d) && (d is Err <==> s.had_errors),
        s.had_errors ==> (r.next matches CleanNext::Done(d) && d is Err && d->Err_0@
            == ErrorView::Message { text: "one or more worktrees failed to clean up"@ }),
{
}

/// `wt clean --dry-run` removes nothing: once every worktree was looked
/// at, it ends.
pub proof fn lemma_dry_run_removes_nothing(s: Cleaning, before: Seq<(bool, Seq<char>)>, r: CleanStep)
    requires
        s.args.dry_run,
        s.index >= s.names@.len(),
        scans(s, before, r),
    ensures
        r.next is Done,
{
}

/// Without `--yes`, `wt clean` removes nothing before the user agrees: once
/// every worktree was looked at, it asks (or ends), and does not remove.
pub proof fn lemma_asks_before_removing(s: Cleaning, before: Seq<(bool, Seq<char>)>, r: CleanStep)
    requires
        !s.args.yes,
        s.index >= s.names@.len(),
        scans(s, before, r),
    ensures
        r.next is Confirm || r.next is Done,
{
}

/// After `before` was printed, `wt clean` goes on to remove candidate `i` of
/// state `s`, or, when all were tried, ends.
pub open spec fn removes(s: Cleaning, i: int, before: Seq<(bool, Seq<char>)>, r: CleanStep) -> bool {
    let cs = candidate_views(s.candidates@);
    if i < cs.len() {
        print_views(r.prints@) == before + seq![
            line(false, "Cleaning up "@ + cs[i].0 + " (branch: "@ + cs[i].1 + ")..."@),
        ] && (r.next matches CleanNext::Remove { state, path, args } && same_but(s, state, i, cs)
            && path@ == worktree_path(s.loaded, cs[i].0) && views(args@) == seq![
            "worktree"@,
            "remove"@,
            "--force"@,
            path@,
        ])
    } else {
        print_views(r.prints@) == before + seq![line(false, "Cleanup complete!"@)] && if s.had_errors {
            r.next matches CleanNext::Done(d) && d is Err && d->Err_0@ == (ErrorView::Message {
                text: "one or more worktrees failed to clean up"@,
            })
        } else {
            r.next matches CleanNext::Done(d) && d is Ok
        }
    }
}

fn push_line(prints: &mut Vec<Print>, text: String)
    ensures
        print_views(final(prints)@) == print_views(old(prints)@).push(line(false, text@)),
{
    let p = print_line(false, text);
    let ghost before = prints@;
    prints.push(p);
    proof {
        lemma_print_views_push(before, p);
    }
}

fn push_say(prints: &mut Vec<Print>, text: &str)
    ensures
        print_views(final(prints)@) == print_views(old(prints)@).push(line(false, text@)),
{
    push_line(prints, owned(text));
}

fn push_blank(prints: &mut Vec<Print>)
    ensures
        print_views(final(prints)@) == print_views(old(prints)@).push(line(false, Seq::empty())),
{
    push_line(prints, String::new());
}

fn remove_candidate(s: Cleaning, prints: Vec<Print>) -> (r: CleanStep)
    ensures
        removes(s, s.index as int, print_views(prints@), r),
{
    let mut prints = prints;
    let ghost before = print_views(prints@);
    let ghost cs = candidate_views(s.candidates@);
    let i = s.index;
    if i < s.candidates.len() {
        let c = &s.candidates[i];
        let mut text = owned("Cleaning up ");
        push_str(&mut text, c.dir_name.as_str());
        push_str(&mut text, " (branch: ");
        push_str(&mut text, c.branch.as_str());
        push_str(&mut text, ")...");
        push_line(&mut prints, text);
        assert(print_views(prints@) =~= before + seq![
            line(false, "Cleaning up "@ + cs[i as int].0 + " (branch: "@ + cs[i as int].1 + ")..."@),
        ]);
        let path = s.loaded.worktree_path_for_name(c.dir_name.as_str());
        let args = worktree_remove_args(path.as_str(), true);
        CleanStep { prints, next: CleanNext::Remove { state: s, path, args } }
    } else {
        push_say(&mut prints, "Cleanup complete!");
        assert(print_views(prints@) =~= before + seq![line(false, "Cleanup complete!"@)]);
        if s.had_errors {
            CleanStep {
                prints,
                next: CleanNext::Done(
                    Err(WtError::Message { text: owned("one or more worktrees failed to clean up") }),
                ),
            }
        } else {
            CleanStep { prints, next: CleanNext::Done(Ok(())) }
        }
    }
}

fn scan(s: Cleaning, prints: Vec<Print>) -> (r: CleanStep)
    requires
        s.index <= s.names@.len(),
    ensures
        scans(s, print_views(prints@), r),
{
    let mut prints = prints;
    let ghost before = print_views(prints@);
    if s.index < s.names.len() {
        let path = s.loaded.worktree_path_for_name(s.names[s.index].as_str());
        return CleanStep { prints, next: CleanNext::QueryBranch { state: s, path } };
    }
    push_blank(&mut prints);
    if s.candidates.len() == 0 {
        push_say(&mut prints, "No qualifying worktrees found. Nothing to clean up.");
        assert(print_views(prints@) =~= before + seq![
            line(false, Seq::empty()),
            line(false, "No qualifying worktrees found. Nothing to clean up."@),
        ]);
        return CleanStep { prints, next: CleanNext::Done(Ok(())) };
    }
    let ghost cs = candidate_views(s.candidates@);
    push_say(&mut prints, "==========================================");
    let mut text = owned("Found ");
    push_decimal(&mut text, s.candidates.len() as u64);
    push_str(&mut text, " worktree(s) to clean up:");
    push_line(&mut prints, text);
    push_say(&mut prints, "==========================================");
    let ghost head = print_views(prints@);
    assert(head =~= before + seq![
        line(false, Seq::empty()),
        line(false, divider()),
        line(false, "Found "@ + decimal(cs.len()) + " worktree(s) to clean up:"@),
        line(false, divider()),
    ]);
    let mut i: usize = 0;
    while i < s.candidates.len()
        invariant
            i <= s.candidates@.len(),
            cs == candidate_views(s.candidates@),
            print_views(prints@) == head + candidate_lines(s.loaded, cs.take(i as int)),
        decreases s.candidates@.len() - i,
    {
        let c = &s.candidates[i];
        push_blank(&mut prints);
        let mut t1 = owned("[");
        push_decimal(&mut t1, i as u64 + 1);
        push_str(&mut t1, "] ");
        push_str(&mut t1, c.dir_name.as_str());
        push_line(&mut prints, t1);
        let mut t2 = owned("    Branch: ");
        push_str(&mut t2, c.branch.as_str());
        push_line(&mut prints, t2);
        let mut t3 = owned("    Path:   ");
        let path = s.loaded.worktree_path_for_name(c.dir_name.as_str());
        push_str(&mut t3, path.as_str());
        push_line(&mut prints, t3);
        proof {
            let ci = cs.take(i + 1);
            assert(ci.drop_last() == cs.take(i as int));
            assert(ci[i as int] == cs[i as int]);
            assert(print_views(prints@) =~= head + candidate_lines(s.loaded, ci));
        }
        i = i + 1;
    }
    assert(cs.take(cs.len() as int) == cs);
    push_blank(&mut prints);
    let ghost summary = print_views(prints@);
    assert(summary =~= head + candidate_lines(s.loaded, cs) + seq![line(false, Seq::empty())]);
    if s.args.dry_run {
        push_say(&mut prints, "--dry-run: not removing anything.");
        assert(print_views(prints@) =~= summary + seq![
            line(false, "--dry-run: not removing anything."@),
        ]);
        return CleanStep { prints, next: CleanNext::Done(Ok(())) };
    }
    if !s.args.yes {
        push_say(&mut prints, "==========================================");
        assert(print_views(prints@) =~= summary + seq![line(false, divider())]);
        let state = Cleaning { index: 0, ..s };
        return CleanStep {
            prints,
            next: CleanNext::Confirm { state, prompt: owned("Proceed with cleanup?") },
        };
    }
    push_blank(&mut prints);
    push_say(&mut prints, "Starting cleanup...");
    push_blank(&mut prints);
    assert(print_views(prints@) =~= summary + cleanup_header());
    remove_candidate(Cleaning { index: 0, ..s }, prints)
}

/// `wt clean` once the default branch was fetched: look at the worktrees.
pub fn fetched(state: Cleaning) -> (r: CleanStep)
    requires
        state.index <= state.names@.len(),
    ensures
        scans(state, seq![line(false, Seq::empty())], r),
{
    let prints = vec![blank_line()];
    assert(print_views(prints@) =~= seq![line(false, Seq::empty())]);
    scan(state, prints)
}

/// The warning for a worktree whose branch cannot be determined.
pub open spec fn skip_warning(name: Seq<char>) -> Seq<char> {
    "\x1b[33m"@ + "warn:"@ + "\x1b[39m"@ + "  Skipping "@ + name + ": cannot determine branch"@
}

/// `wt clean` once the branch of the current worktree is known: skip the
/// worktree (with a warning) when there is none; otherwise ask gh for a
/// merged pull request of the branch.
pub fn branch_found(state: Cleaning, ran: &Captured) -> (r: CleanStep)
    requires
        state.index < state.names@.len(),
    ensures
        ({
            let name = state.names@[state.index as int]@;
            match branch_of(*ran) {
                None => {
                    let s2 = Cleaning { index: (state.index + 1) as usize, ..state };
                    scans(s2, seq![line(false, skip_warning(name))], r)
                },
                Some(b) => print_views(r.prints@) == seq![
                    line(false, "Checking "@ + name + " (branch: "@ + b + ")..."@),
                ] && (r.next matches CleanNext::QueryPr { state: s, branch, closed, args } && s
                    == state && branch@ == b && !closed && views(args@) == seq![
                    "pr"@,
                    "list"@,
                    "--head"@,
                    b,
                    "--state"@,
                    "merged"@,
                ]),
            }
        }),
{
    let mut prints: Vec<Print> = Vec::new();
    match current_branch(ran) {
        None => {
            let mut text = yellow("warn:");
            push_str(&mut text, "  Skipping ");
            push_str(&mut text, state.names[state.index].as_str());
            push_str(&mut text, ": cannot determine branch");
            assert(text@ =~= skip_warning(state.names@[state.index as int]@));
            push_line(&mut prints, text);
            assert(print_views(prints@) =~= seq![
                line(false, skip_warning(state.names@[state.index as int]@)),
            ]);
            let count = state.names.len();
            assert(state.index < count);
            let s2 = Cleaning { index: state.index + 1, ..state };
            scan(s2, prints)
        },
        Some(b) => {
            let mut text = owned("Checking ");
            push_str(&mut text, state.names[state.index].as_str());
            push_str(&mut text, " (branch: ");
            push_str(&mut text, b.as_str());
            push_str(&mut text, ")...");
            push_line(&mut prints, text);
            assert(print_views(prints@) =~= seq![
                line(false, "Checking "@ + state.names@[state.index as int]@ + " (branch: "@ + b@ + ")..."@),
            ]);
            let args = has_pr_in_state_args(b.as_str(), "merged");
            CleanStep { prints, next: CleanNext::QueryPr { state, branch: b, closed: false, args } }
        },
    }
}

/// What the first pull request lookup decides.
pub enum PrCheck {
    /// The branch qualifies, or does not.
    Decided(bool),
    /// Look for a closed pull request too.
    AskClosed,
    /// The lookup failed.
    Failed(WtError),
}

/// Whether a branch qualifies for cleanup, from the lookup of a merged pull
/// request: it does when one was found; when none was, it depends on a
/// closed one if closed ones count, and otherwise it does not.
pub fn branch_has_qualifying_pr(include_closed: bool, merged: Result<bool, WtError>) -> (r: PrCheck)
    ensures
        match merged {
            Err(e) => r matches PrCheck::Failed(f) && f@ == e@,
            Ok(true) => r matches PrCheck::Decided(q) && q,
            Ok(false) => if include_closed {
                r is AskClosed
            } else {
                r matches PrCheck::Decided(q) && !q
            },
        },
{
    match merged {
        Err(e) => PrCheck::Failed(e),
        Ok(true) => PrCheck::Decided(true),
        Ok(false) => {
            if include_closed {
                PrCheck::AskClosed
            } else {
                PrCheck::Decided(false)
            }
        },
    }
}

/// The line for a qualifying branch.
pub open spec fn qualifies_line(b: Seq<char>) -> Seq<char> {
    "  "@ + "\x1b[32m"@ + "OK"@ + "\x1b[39m"@ + " branch "@ + b + " qualifies for cleanup"@
}

/// The line for a branch that does not qualify.
pub open spec fn keeps_line(b: Seq<char>) -> Seq<char> {
    "  "@ + "\x1b[2m"@ + "skip:"@ + "\x1b[0m"@ + " branch "@ + b + " does NOT qualify - keeping"@
}

/// `wt clean` after deciding on the current worktree: note the decision,
/// keep it as a candidate when it qualifies, and go on.
pub open spec fn decides(state: Cleaning, b: Seq<char>, q: bool, r: CleanStep) -> bool {
    let name = state.names@[state.index as int]@;
    let cs = candidate_views(state.candidates@);
    if q {
        exists|s2: Cleaning| #[trigger] same_but(state, s2, state.index + 1, cs.push((name, b)))
            && scans(s2, seq![line(false, qualifies_line(b))], r)
    } else {
        exists|s2: Cleaning| #[trigger] same_but(state, s2, state.index + 1, cs) && scans(
            s2,
            seq![line(false, keeps_line(b))],
            r,
        )
    }
}

fn decide(state: Cleaning, branch: String, q: bool) -> (r: CleanStep)
    requires
        state.index < state.names@.len(),
    ensures
        decides(state, branch@, q, r),
{
    let mut prints: Vec<Print> = Vec::new();
    let ghost name = state.names@[state.index as int]@;
    let ghost cs = candidate_views(state.candidates@);
    let count = state.names.len();
    assert(state.index < count);
    let i = state.index + 1;
    if q {
        let mut text = owned("  ");
        let ok = green("OK");
        push_str(&mut text, ok.as_str());
        push_str(&mut text, " branch ");
        push_str(&mut text, branch.as_str());
        push_str(&mut text, " qualifies for cleanup");
        assert(text@ =~= qualifies_line(branch@));
        push_line(&mut prints, text);
        assert(print_views(prints@) =~= seq![line(false, qualifies_line(branch@))]);
        let mut candidates = state.candidates;
        let dir_name = owned(state.names[state.index].as_str());
        let c = Candidate { dir_name, branch };
        candidates.push(c);
        assert(candidate_views(candidates@) =~= cs.push((name, c.branch@)));
        let s2 = Cleaning {
            loaded: state.loaded,
            args: state.args,
            names: state.names,
            index: i,
            candidates,
            had_errors: state.had_errors,
        };
        let r = scan(s2, prints);
        assert(same_but(state, s2, state.index + 1, cs.push((name, c.branch@))));
        r
    } else {
        let mut text = owned("  ");
        let sk = dimmed("skip:");
        push_str(&mut text, sk.as_str());
        push_str(&mut text, " branch ");
        push_str(&mut text, branch.as_str());
        push_str(&mut text, " does NOT qualify - keeping");
        assert(text@ =~= keeps_line(branch@));
        push_line(&mut prints, text);
        assert(print_views(prints@) =~= seq![line(false, keeps_line(branch@))]);
        let s2 = Cleaning {
            loaded: state.loaded,
            args: state.args,
            names: state.names,
            index: i,
            candidates: state.candidates,
            had_errors: state.had_errors,
        };
        let r = scan(s2, prints);
        assert(same_but(state, s2, state.index + 1, cs));
        r
    }
}

/// `wt clean` once gh was asked for a merged pull request of `branch`: a
/// failed lookup ends the command; a found one qualifies the worktree;
/// otherwise ask for a closed one when those count, or keep the worktree.
pub fn merged_checked(state: Cleaning, branch: String, ran: &Captured) -> (r: CleanStep)
    requires
        state.index < state.names@.len(),
    ensures
        match crate::gh::pr_lookup(branch@, "merged"@, *ran) {
            Err(e) => r.prints@.len() == 0 && (r.next matches CleanNext::Done(d) && d is Err
                && d->Err_0@ == e),
            Ok(true) => decides(state, branch@, true, r),
            Ok(false) => if state.args.include_closed {
                r.prints@.len() == 0 && (r.next matches CleanNext::QueryPr {
                    state: s,
                    branch: b,
                    closed,
                    args,
                } && s == state && b == branch && closed && views(args@) == seq![
                    "pr"@,
                    "list"@,
                    "--head"@,
                    branch@,
                    "--state"@,
                    "closed"@,
                ])
            } else {
                decides(state, branch@, false, r)
            },
        },
{
    let merged = has_pr_in_state(branch.as_str(), "merged", ran);
    match branch_has_qualifying_pr(state.args.include_closed, merged) {
        PrCheck::Failed(e) => CleanStep { prints: Vec::new(), next: CleanNext::Done(Err(e)) },
        PrCheck::Decided(q) => decide(state, branch, q),
        PrCheck::AskClosed => {
            let args = has_pr_in_state_args(branch.as_str(), "closed");
            CleanStep { prints: Vec::new(), next: CleanNext::QueryPr { state, branch, closed: true, args } }
        },
    }
}

/// `wt clean` once gh was asked for a closed pull request of `branch`: a
/// failed lookup ends the command; otherwise the worktree qualifies exactly
/// when one was found.
pub fn closed_checked(state: Cleaning, branch: String, ran: &Captured) -> (r: CleanStep)
    requires
        state.index < state.names@.len(),
    ensures
        match crate::gh::pr_lookup(branch@, "closed"@, *ran) {
            Err(e) => r.prints@.len() == 0 && (r.next matches CleanNext::Done(d) && d is Err
                && d->Err_0@ == e),
            Ok(q) => decides(state, branch@, q, r),
        },
{
    match has_pr_in_state(branch.as_str(), "closed", ran) {
        Err(e) => CleanStep { prints: Vec::new(), next: CleanNext::Done(Err(e)) },
        Ok(q) => decide(state, branch, q),
    }
}

/// `wt clean` once the user answered whether to proceed.
pub fn confirmed(state: Cleaning, answer: Answer) -> (r: CleanStep)
    requires
        state.index == 0,
    ensures
        match answer {
            Err(e) => r.prints@.len() == 0 && (r.next matches CleanNext::Done(d) && d is Err
                && d->Err_0@ == prompt_failed(e@)),
            Ok(false) => print_views(r.prints@) == seq![line(false, "Cleanup cancelled."@)] && (
            r.next matches CleanNext::Done(d) && d is Ok),
            Ok(true) => removes(state, 0, cleanup_header(), r),
        },
{
    match answer {
        Err(e) => CleanStep {
            prints: Vec::new(),
            next: CleanNext::Done(Err(error_with("prompt failed: ", e.as_str()))),
        },
        Ok(false) => {
            let prints = vec![say("Cleanup cancelled.")];
            assert(print_views(prints@) =~= seq![line(false, "Cleanup cancelled."@)]);
            CleanStep { prints, next: CleanNext::Done(Ok(())) }
        },
        Ok(true) => {
            let mut prints: Vec<Print> = Vec::new();
            push_blank(&mut prints);
            push_say(&mut prints, "Starting cleanup...");
            push_blank(&mut prints);
            assert(print_views(prints@) =~= cleanup_header());
            remove_candidate(state, prints)
        },
    }
}

/// The state is that of `s` with `index` one further and `had_errors` set
/// to `e`.
pub open spec fn advanced(s: Cleaning, t: Cleaning, e: bool) -> bool {
    t.loaded == s.loaded && t.args == s.args && t.names == s.names && t.index == s.index + 1
        && t.candidates == s.candidates && t.had_errors == e
}

/// `wt clean` once git tried to remove the current candidate (with
/// `--force`): a run that could not start ends the command; a removal goes
/// on to delete the branch; a failure is reported and the next candidate
/// follows. Git's own output is echoed first.
pub fn cleanup_removed(state: Cleaning, report: Result<RemoveReport, WtError>) -> (r: CleanStep)
    requires
        state.index < state.candidates@.len(),
    ensures
        match report {
            Err(e) => r.prints@.len() == 0 && (r.next matches CleanNext::Done(d) && d is Err
                && d->Err_0@ == e@),
            Ok(rep) => {
                let echoed = print_views(rep.prints@);
                let branch = state.candidates@[state.index as int].branch@;
                match rep.outcome@ {
                    OutcomeView::Removed => print_views(r.prints@) == echoed && (
                    r.next matches CleanNext::DeleteBranch { state: s, args } && s == state
                        && views(args@) == seq!["branch"@, "-D"@, branch]),
                    OutcomeView::NeedsForce(m) | OutcomeView::Orphan(m) | OutcomeView::Other(m) => {
                        exists|s2: Cleaning| #[trigger] advanced(state, s2, true) && removes(
                            s2,
                            s2.index as int,
                            echoed + seq![
                                line(true, "  failed to remove worktree: "@ + trim(m)),
                                line(false, Seq::empty()),
                            ],
                            r,
                        )
                    },
                }
            },
        },
{
    match report {
        Err(e) => CleanStep { prints: Vec::new(), next: CleanNext::Done(Err(e)) },
        Ok(rep) => {
            let mut prints = rep.prints;
            let ghost echoed = print_views(prints@);
            match rep.outcome {
                RemoveOutcome::Removed => {
                    let args = delete_local_branch_args(state.candidates[state.index].branch.as_str());
                    CleanStep { prints, next: CleanNext::DeleteBranch { state, args } }
                },
                RemoveOutcome::NeedsForce(m) | RemoveOutcome::Orphan(m) | RemoveOutcome::Other(m) => {
                    let mut text = owned("  failed to remove worktree: ");
                    let t = trim_str(m.as_str());
                    push_str(&mut text, t.as_str());
                    let p = print_line(true, text);
                    let ghost before = prints@;
                    prints.push(p);
                    proof {
                        lemma_print_views_push(before, p);
                    }
                    push_blank(&mut prints);
                    assert(print_views(prints@) =~= echoed + seq![
                        line(true, "  failed to remove worktree: "@ + trim(m@)),
                        line(false, Seq::empty()),
                    ]);
                    let count = state.candidates.len();
                    assert(state.index < count);
                    let s2 = Cleaning {
                        loaded: state.loaded,
                        args: state.args,
                        names: state.names,
                        index: state.index + 1,
                        candidates: state.candidates,
                        had_errors: true,
                    };
                    let r = remove_candidate(s2, prints);
                    assert(advanced(state, s2, true));
                    r
                },
            }
        },
    }
}

/// `wt clean` once git tried to delete the current candidate's branch:
/// report how that went, then go on to the next candidate.
pub fn branch_deleted(state: Cleaning, ran: &Captured) -> (r: CleanStep)
    requires
        state.index < state.candidates@.len(),
    ensures
        ({
            let b = state.candidates@[state.index as int].branch@;
            let said = match crate::repo::delete_branch_error(b, *ran) {
                None => line(false, "  deleted local branch "@ + b),
                Some(e) => line(true, "  warning: could not delete local branch "@ + b + ": "@ + e.head()),
            };
            exists|s2: Cleaning| #[trigger] advanced(state, s2, state.had_errors) && removes(
                s2,
                s2.index as int,
                seq![said, line(false, Seq::empty())],
                r,
            )
        }),
{
    let mut prints: Vec<Print> = Vec::new();
    let b = owned(state.candidates[state.index].branch.as_str());
    match delete_local_branch(b.as_str(), ran) {
        Ok(()) => {
            let mut text = owned("  deleted local branch ");
            push_str(&mut text, b.as_str());
            push_line(&mut prints, text);
        },
        Err(e) => {
            let mut text = owned("  warning: could not delete local branch ");
            push_str(&mut text, b.as_str());
            push_str(&mut text, ": ");
            let h = e.headline();
            push_str(&mut text, h.as_str());
            let p = print_line(true, text);
            let ghost before = prints@;
            prints.push(p);
            proof {
                lemma_print_views_push(before, p);
            }
        },
    }
    push_blank(&mut prints);
    proof {
        let bb = state.candidates@[state.index as int].branch@;
        let said = match crate::repo::delete_branch_error(bb, *ran) {
            None => line(false, "  deleted local branch "@ + bb),
            Some(e) => line(true, "  warning: could not delete local branch "@ + bb + ": "@ + e.head()),
        };
        assert(print_views(prints@) =~= seq![said, line(false, Seq::empty())]);
    }
    let count = state.candidates.len();
    assert(state.index < count);
    let s2 = Cleaning {
        loaded: state.loaded,
        args: state.args,
        names: state.names,
        index: state.index + 1,
        candidates: state.candidates,
        had_errors: state.had_errors,
    };
    let r = remove_candidate(s2, prints);
    assert(advanced(state, s2, state.had_errors));
    r
}

} // verus!
