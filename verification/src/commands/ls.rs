//! `wt ls`: list the worktrees in the configured worktrees directory, with
//! their branches, and optionally their dirty state and pull requests.

use vstd::prelude::*;
use vstd::utf8::encode_utf8;

use crate::cli::LsArgs;
use crate::commands::{line, print_line, worktree_path};
use crate::config::LoadedConfig;
use crate::error::WtError;
use crate::gh::{pr_summary_best_effort, PrSummary};
use crate::process::{views, Captured};
use crate::repo::{branch_or_detached, is_dirty, lemma_print_views_push, print_views, shown_branch, Print};
use crate::style::{bold_padded, pad_right};
use crate::text::{decimal, lowercase, owned, push_char, push_decimal, push_str, to_chars, to_lowercase};

verus! {

/// The extra columns of a row of `wt ls --rich`.
#[derive(Debug)]
pub struct RichBits {
    /// The worktree has uncommitted changes.
    pub dirty: bool,
    /// Its pull request, as `#<number> (<state>)`.
    pub pr: Option<String>,
}

/// A row of `wt ls`.
#[derive(Debug)]
pub struct Row {
    pub name: String,
    pub branch: String,
    /// Kept for the rich pass (dirty check, gh lookup); not displayed.
    pub path: String,
    /// The rich columns, when they were asked for and found.
    pub rich: Option<RichBits>,
}

/// What `wt ls` does next.
pub enum LsNext {
    /// List the worktree names, then call `listed`.
    ListWorktrees { loaded: LoadedConfig, args: LsArgs },
    /// Find the current branch of each of `paths`, in order, then call
    /// `branches_found`.
    QueryBranches { args: LsArgs, names: Vec<String>, paths: Vec<String> },
    /// For each row, run `git status --porcelain` in its path and `gh pr
    /// list` (`gh::pr_summary_args`) for its branch, make `rich_bits` of the
    /// two (`None` when that work failed to finish), then call `print_table`
    /// with the rows and those bits.
    Enrich { rows: Vec<Row> },
    /// Print `print_table` of the rows (not rich) and end.
    Show { rows: Vec<Row> },
    /// End the command, after printing `prints`.
    Done { prints: Vec<Print>, result: Result<(), WtError> },
}

/// `wt ls`, given the loaded configuration: list the worktrees.
pub fn run(args: LsArgs, loaded: Result<LoadedConfig, WtError>) -> (r: LsNext)
    ensures
        match loaded {
            Err(e) => r matches LsNext::Done { prints, result } && prints@.len() == 0
                && result is Err && result->Err_0@ == e@,
            Ok(l) => r matches LsNext::ListWorktrees { loaded, args: a } && loaded == l && a
                == args,
        },
{
    match loaded {
        Err(e) => LsNext::Done { prints: Vec::new(), result: Err(e) },
        Ok(l) => LsNext::ListWorktrees { loaded: l, args },
    }
}

/// `wt ls` once the worktrees are listed: a note when there are none;
/// otherwise find their branches.
pub fn listed(loaded: LoadedConfig, args: LsArgs, names: Result<Vec<String>, WtError>) -> (r: LsNext)
    ensures
        match names {
            Err(e) => r matches LsNext::Done { prints, result } && prints@.len() == 0
                && result is Err && result->Err_0@ == e@,
            Ok(ns) => if ns@.len() == 0 {
                r matches LsNext::Done { prints, result } && result is Ok && print_views(prints@)
                    == seq![line(false, "(no worktrees in "@ + loaded.worktrees_dir@ + ")"@)]
            } else {
                r matches LsNext::QueryBranches { args: a, names: n, paths } && a == args && n
                    == ns && views(paths@) == ns@.map_values(|m: String| worktree_path(loaded, m@))
            },
        },
{
    match names {
        Err(e) => LsNext::Done { prints: Vec::new(), result: Err(e) },
        Ok(ns) => {
            if ns.len() == 0 {
                let mut text = owned("(no worktrees in ");
                push_str(&mut text, loaded.worktrees_dir.as_str());
                push_str(&mut text, ")");
                let prints = vec![print_line(false, text)];
                assert(print_views(prints@) =~= seq![
                    line(false, "(no worktrees in "@ + loaded.worktrees_dir@ + ")"@),
                ]);
                return LsNext::Done { prints, result: Ok(()) };
            }
            let mut paths: Vec<String> = Vec::new();
            let mut i: usize = 0;
            while i < ns.len()
                invariant
                    i <= ns@.len(),
                    views(paths@) == ns@.take(i as int).map_values(
                        |m: String| worktree_path(loaded, m@),
                    ),
                decreases ns@.len() - i,
            {
                let p = loaded.worktree_path_for_name(ns[i].as_str());
                let ghost before = paths@;
                paths.push(p);
                proof {
                    crate::process::lemma_views_push(before, p);
                    assert(ns@.take(i + 1).map_values(|m: String| worktree_path(loaded, m@))
                        =~= ns@.take(i as int).map_values(|m: String| worktree_path(loaded, m@)).push(
                        p@,
                    ));
                }
                i = i + 1;
            }
            assert(ns@.take(ns@.len() as int) == ns@);
            LsNext::QueryBranches { args, names: ns, paths }
        },
    }
}

/// The views of the rows: (name, branch, path).
pub open spec fn row_views(rows: Seq<Row>) -> Seq<(Seq<char>, Seq<char>, Seq<char>)> {
    rows.map_values(|r: Row| (r.name@, r.branch@, r.path@))
}

/// `wt ls` once the branches are known: one row per worktree (the branch
/// `(detached)` when there is none); then the rich pass when asked for, or
/// the table.
pub fn branches_found(args: LsArgs, names: Vec<String>, paths: Vec<String>, branches: Vec<Captured>) -> (r: LsNext)
    requires
        paths@.len() == names@.len(),
        branches@.len() == names@.len(),
    ensures
        ({
            let expected = Seq::new(
                names@.len(),
                |i: int| (names@[i]@, shown_branch(branches@[i]), paths@[i]@),
            );
            if args.rich {
                r matches LsNext::Enrich { rows } && row_views(rows@) == expected && forall|i: int|
                    0 <= i < rows@.len() ==> #[trigger] rows@[i].rich is None
            } else {
                r matches LsNext::Show { rows } && row_views(rows@) == expected && forall|i: int|
                    0 <= i < rows@.len() ==> #[trigger] rows@[i].rich is None
            }
        }),
{
    let mut rows: Vec<Row> = Vec::new();
    let mut i: usize = 0;
    while i < names.len()
        invariant
            i <= names@.len() == paths@.len() == branches@.len(),
            row_views(rows@) == Seq::new(
                i as nat,
                |k: int| (names@[k]@, shown_branch(branches@[k]), paths@[k]@),
            ),
            forall|k: int| 0 <= k < rows@.len() ==> #[trigger] rows@[k].rich is None,
        decreases names@.len() - i,
    {
        let row = Row {
            name: owned(names[i].as_str()),
            branch: branch_or_detached(&branches[i]),
            path: owned(paths[i].as_str()),
            rich: None,
        };
        let ghost rv = (row.name@, row.branch@, row.path@);
        let ghost before = rows@;
        rows.push(row);
        assert(row_views(rows@) =~= row_views(before).push(rv));
        assert(row_views(rows@) =~= Seq::new(
            (i + 1) as nat,
            |k: int| (names@[k]@, shown_branch(branches@[k]), paths@[k]@),
        ));
        i = i + 1;
    }
    if args.rich {
        LsNext::Enrich { rows }
    } else {
        LsNext::Show { rows }
    }
}

/// How a pull request is shown: `#<number> (<state in lowercase>)`.
pub open spec fn pr_label_of(number: u64, state: Seq<char>) -> Seq<char> {
    "#"@ + decimal(number as nat) + " ("@ + lowercase(state) + ")"@
}

/// The label of a pull request.
pub fn pr_label(p: &PrSummary) -> (r: String)
    ensures
        r@ == pr_label_of(p.number, p.state@),
{
    let mut r = owned("#");
    push_decimal(&mut r, p.number);
    push_str(&mut r, " (");
    let st = to_lowercase(p.state.as_str());
    push_str(&mut r, st.as_str());
    push_str(&mut r, ")");
    r
}

/// The rich columns of a row, from the run of `git status --porcelain` in
/// its path and the run of `gh pr list` for its branch.
pub fn rich_bits(status: &Captured, pr: &Captured) -> (r: RichBits)
    ensures
        r.dirty == (match status {
            Ok(out) => out.stdout@.len() > 0,
            Err(_) => false,
        }),
        match crate::gh::pr_summary_seen(*pr) {
            Some((n, st)) => r.pr is Some && r.pr->0@ == pr_label_of(n, st),
            None => r.pr is None,
        },
{
    let dirty = is_dirty(status);
    let pr = match pr_summary_best_effort(pr) {
        Some(p) => Some(pr_label(&p)),
        None => None,
    };
    RichBits { dirty, pr }
}

/// The number of UTF-8 bytes of a string (`str::len`), which sets the
/// column widths.
pub open spec fn byte_len(s: Seq<char>) -> nat {
    encode_utf8(s).len()
}

/// The widest byte length among `names`, and at least `min`.
pub open spec fn column_width(names: Seq<Seq<char>>, min: nat) -> nat
    decreases names.len(),
{
    if names.len() == 0 {
        min
    } else {
        let w = column_width(names.drop_last(), min);
        let l = byte_len(names.last());
        if l > w {
            l
        } else {
            w
        }
    }
}

/// A column is as wide as its widest entry (in bytes), and at least `min`:
/// no entry is wider, and the width is `min` or the width of some entry.
pub proof fn lemma_column_width_is_max(names: Seq<Seq<char>>, min: nat)
    ensures
        min <= column_width(names, min),
        forall|k: int| 0 <= k < names.len() ==> byte_len(#[trigger] names[k]) <= column_width(names, min),
        column_width(names, min) == min || exists|k: int|
            0 <= k < names.len() && column_width(names, min) == byte_len(#[trigger] names[k]),
    decreases names.len(),
{
    if names.len() > 0 {
        let init = names.drop_last();
        lemma_column_width_is_max(init, min);
        assert forall|k: int| 0 <= k < names.len() implies byte_len(#[trigger] names[k])
            <= column_width(names, min) by {
            if k < init.len() {
                assert(names[k] == init[k]);
            }
        }
        if column_width(names, min) != min {
            if byte_len(names.last()) > column_width(init, min) {
                assert(column_width(names, min) == byte_len(names[names.len() - 1]));
            } else {
                let k = choose|k: int|
                    0 <= k < init.len() && column_width(init, min) == byte_len(#[trigger] init[k]);
                assert(names[k] == init[k]);
            }
        }
    }
}

/// The dirty column of a row.
pub open spec fn dirty_cell(r: Row) -> Seq<char> {
    match r.rich {
        Some(b) => if b.dirty {
            "yes"@
        } else {
            Seq::empty()
        },
        None => Seq::empty(),
    }
}

/// The pull request column of a row.
pub open spec fn pr_cell(r: Row) -> Seq<char> {
    match r.rich {
        Some(b) => match b.pr {
            Some(p) => p@,
            None => Seq::empty(),
        },
        None => Seq::empty(),
    }
}

/// A bold header cell, padded.
pub open spec fn bold_cell(t: Seq<char>, w: nat) -> Seq<char> {
    "\x1b[1m"@ + pad_right(t, w) + "\x1b[0m"@
}

/// The lines of the table of `rows`: a bold header, then a row per
/// worktree, in columns as wide as their widest entry (counted in bytes;
/// at least the header).
pub open spec fn table(rows: Seq<Row>, rich: bool) -> Seq<(bool, Seq<char>)> {
    let nw = column_width(rows.map_values(|r: Row| r.name@), 4);
    let bw = column_width(rows.map_values(|r: Row| r.branch@), 6);
    if rich {
        seq![
            line(
                false,
                bold_cell("NAME"@, nw) + "  "@ + bold_cell("BRANCH"@, bw) + "  "@ + bold_cell(
                    "DIRTY"@,
                    7,
                ) + "  "@ + bold_cell("PR"@, 0),
            ),
        ] + Seq::new(
            rows.len(),
            |i: int|
                line(
                    false,
                    pad_right(rows[i].name@, nw) + "  "@ + pad_right(rows[i].branch@, bw) + "  "@
                        + pad_right(dirty_cell(rows[i]), 7) + "  "@ + pr_cell(rows[i]),
                ),
        )
    } else {
        seq![line(false, bold_cell("NAME"@, nw) + "  "@ + bold_cell("BRANCH"@, 0))] + Seq::new(
            rows.len(),
            |i: int| line(false, pad_right(rows[i].name@, nw) + "  "@ + rows[i].branch@),
        )
    }
}

/// In the rich table, the DIRTY column of a worktree whose rich columns
/// were found reads `yes` exactly when it has uncommitted changes, and is
/// blank otherwise; the rest of its line is its name, its branch and its
/// pull request label, each in its column.
pub proof fn lemma_rich_row_dirty_cell(rows: Seq<Row>, i: int)
    requires
        0 <= i < rows.len(),
        rows[i].rich is Some,
    ensures
        ({
            let b = rows[i].rich->0;
            let nw = column_width(rows.map_values(|r: Row| r.name@), 4);
            let bw = column_width(rows.map_values(|r: Row| r.branch@), 6);
            let dirty = if b.dirty {
                "yes    "@
            } else {
                "       "@
            };
            let pr = match b.pr {
                Some(p) => p@,
                None => Seq::empty(),
            };
            table(rows, true)[i + 1] == line(
                false,
                pad_right(rows[i].name@, nw) + "  "@ + pad_right(rows[i].branch@, bw) + "  "@
                    + dirty + "  "@ + pr,
            )
        }),
{
    reveal_strlit("yes");
    reveal_strlit("yes    ");
    reveal_strlit("       ");
    let b = rows[i].rich->0;
    if b.dirty {
        assert(pad_right("yes"@, 7) =~= "yes    "@);
    } else {
        assert(pad_right(Seq::empty(), 7) =~= "       "@);
    }
}

/// In the rich table, a worktree whose rich columns could not be found
/// shows a blank DIRTY column and no pull request.
pub proof fn lemma_rich_row_without_bits(rows: Seq<Row>, i: int)
    requires
        0 <= i < rows.len(),
        rows[i].rich is None,
    ensures
        ({
            let nw = column_width(rows.map_values(|r: Row| r.name@), 4);
            let bw = column_width(rows.map_values(|r: Row| r.branch@), 6);
            table(rows, true)[i + 1] == line(
                false,
                pad_right(rows[i].name@, nw) + "  "@ + pad_right(rows[i].branch@, bw) + "  "@
                    + "       "@ + "  "@,
            )
        }),
{
    reveal_strlit("       ");
    assert(pad_right(Seq::empty(), 7) =~= "       "@);
    let nw = column_width(rows.map_values(|r: Row| r.name@), 4);
    let bw = column_width(rows.map_values(|r: Row| r.branch@), 6);
    let pre = pad_right(rows[i].name@, nw) + "  "@ + pad_right(rows[i].branch@, bw) + "  "@
        + "       "@ + "  "@;
    assert(pre + Seq::<char>::empty() =~= pre);
}

/// In the plain table, each worktree's line is its name, padded to the
/// widest name, then its branch.
pub proof fn lemma_plain_row(rows: Seq<Row>, i: int)
    requires
        0 <= i < rows.len(),
    ensures
        table(rows, false)[i + 1] == line(
            false,
            pad_right(rows[i].name@, column_width(rows.map_values(|r: Row| r.name@), 4)) + "  "@
                + rows[i].branch@,
        ),
        table(rows, false).len() == rows.len() + 1,
{
}

/// The number of characters of `s`.
fn char_count(s: &str) -> (n: usize)
    ensures
        n == s@.len(),
{
    to_chars(s).len()
}

/// Appends `s` padded with spaces to `width` characters.
fn push_padded(out: &mut String, s: &str, width: usize)
    ensures
        final(out)@ == old(out)@ + pad_right(s@, width as nat),
{
    let ghost start = out@;
    push_str(out, s);
    let n = char_count(s);
    if n >= width {
        return;
    }
    let mut k: usize = n;
    assert(out@ =~= start + s@ + Seq::new((k - n) as nat, |i: int| ' '));
    while k < width
        invariant
            n <= k <= width,
            n == s@.len(),
            out@ == start + s@ + Seq::new((k - n) as nat, |i: int| ' '),
        decreases width - k,
    {
        push_char(out, ' ');
        k = k + 1;
        assert(out@ =~= start + s@ + Seq::new((k - n) as nat, |i: int| ' '));
    }
    assert(out@ =~= start + pad_right(s@, width as nat));
}

/// The widest byte length among the names (or branches) of `rows`, and at
/// least `min`.
fn width_of(rows: &Vec<Row>, names: bool, min: usize) -> (w: usize)
    ensures
        w == column_width(
            if names {
                rows@.map_values(|r: Row| r.name@)
            } else {
                rows@.map_values(|r: Row| r.branch@)
            },
            min as nat,
        ),
{
    let ghost all = if names {
        rows@.map_values(|r: Row| r.name@)
    } else {
        rows@.map_values(|r: Row| r.branch@)
    };
    let mut w = min;
    let mut i: usize = 0;
    while i < rows.len()
        invariant
            i <= rows@.len(),
            all.len() == rows@.len(),
            all == (if names {
                rows@.map_values(|r: Row| r.name@)
            } else {
                rows@.map_values(|r: Row| r.branch@)
            }),
            w == column_width(all.take(i as int), min as nat),
        decreases rows@.len() - i,
    {
        let l = if names {
            rows[i].name.as_str().as_bytes().len()
        } else {
            rows[i].branch.as_str().as_bytes().len()
        };
        proof {
            assert(all.take(i + 1).drop_last() == all.take(i as int));
            assert(all.take(i + 1).last() == all[i as int]);
        }
        if l > w {
            w = l;
        }
        i = i + 1;
    }
    assert(all.take(rows@.len() as int) == all);
    w
}

/// The table of `wt ls`, line by line.
pub fn print_table(rows: &Vec<Row>, rich: bool) -> (r: Vec<Print>)
    ensures
        print_views(r@) == table(rows@, rich),
{
    let nw = width_of(rows, true, 4);
    let bw = width_of(rows, false, 6);
    let mut prints: Vec<Print> = Vec::new();
    let mut head = bold_padded("NAME", nw);
    push_str(&mut head, "  ");
    if rich {
        let b = bold_padded("BRANCH", bw);
        push_str(&mut head, b.as_str());
        push_str(&mut head, "  ");
        let d = bold_padded("DIRTY", 7);
        push_str(&mut head, d.as_str());
        push_str(&mut head, "  ");
        let p = bold_padded("PR", 0);
        push_str(&mut head, p.as_str());
    } else {
        let b = bold_padded("BRANCH", 0);
        push_str(&mut head, b.as_str());
    }
    prints.push(print_line(false, head));
    let ghost first = print_views(prints@);
    let ghost tb = table(rows@, rich);
    assert(first =~= tb.take(1));
    let mut i: usize = 0;
    while i < rows.len()
        invariant
            i <= rows@.len(),
            tb == table(rows@, rich),
            tb.len() == rows@.len() + 1,
            nw == column_width(rows@.map_values(|r: Row| r.name@), 4),
            bw == column_width(rows@.map_values(|r: Row| r.branch@), 6),
            print_views(prints@) == tb.take(i + 1),
        decreases rows@.len() - i,
    {
        let row = &rows[i];
        let mut text = String::new();
        push_padded(&mut text, row.name.as_str(), nw);
        push_str(&mut text, "  ");
        if rich {
            push_padded(&mut text, row.branch.as_str(), bw);
            push_str(&mut text, "  ");
            let dirty = match &row.rich {
                Some(b) => if b.dirty {
                    "yes"
                } else {
                    ""
                },
                None => "",
            };
            proof {
                reveal_strlit("");
            }
            push_padded(&mut text, dirty, 7);
            push_str(&mut text, "  ");
            match &row.rich {
                Some(b) => match &b.pr {
                    Some(p) => push_str(&mut text, p.as_str()),
                    None => {},
                },
                None => {},
            }
        } else {
            push_str(&mut text, row.branch.as_str());
        }
        let p = print_line(false, text);
        let ghost before = prints@;
        prints.push(p);
        proof {
            lemma_print_views_push(before, p);
            assert(tb[i + 1] == p@);
            assert(print_views(prints@) =~= tb.take(i + 2));
        }
        i = i + 1;
    }
    assert(tb.take(rows@.len() + 1 as int) == tb);
    prints
}

} // verus!
