//! Pull request lookups through the `gh` command: the arguments handed to
//! it, and what is read back from its output.

use vstd::prelude::*;

use vstd::utf8::{decode_utf8, valid_utf8};

use crate::error::{ErrorView, WtError};
use crate::process::{describe_failure, exit_ok, exit_succeeded, failure_detail, views, Captured};
use crate::text::{
    all_digits, decimal, is_digit, is_whitespace, lemma_decimal_digits, lemma_find_first,
    lemma_parse_decimal, lemma_trim_start_at, lemma_trim_unchanged, any_line_contains, owned,
    parse_u64_str, push_str, utf8_lossy, utf8_lossy_string, utf8_strict,
    contains, find, occurs_at, lemma_find_contains, find_chars, lines, parse_u64, parse_u64_chars,
    some_line_contains, string_of_range, to_chars, trim, trim_bounds, trim_start,
    trim_start_index,
};

verus! {

/// The number and state of a pull request, as `gh pr list --json` reports
/// them.
#[derive(Debug, Clone)]
pub struct PrSummary {
    pub number: u64,
    pub state: String,
}

impl View for PrSummary {
    type V = (u64, Seq<char>);

    open spec fn view(&self) -> (u64, Seq<char>) {
        (self.number, self.state@)
    }
}

/// A character that ends an unquoted field value.
pub open spec fn is_field_end(c: char) -> bool {
    c == ',' || c == '}' || c == ']'
}

/// The number of characters of `s` before the first `,`, `}` or `]` (all of
/// `s` when there is none).
pub open spec fn field_len(s: Seq<char>) -> nat
    decreases s.len(),
{
    if s.len() == 0 || is_field_end(s[0]) {
        0
    } else {
        1 + field_len(s.drop_first())
    }
}

/// The unquoted value after the first occurrence of `key`: what follows the
/// key up to the next `,`, `}` or `]`, trimmed.
pub open spec fn field_value(body: Seq<char>, key: Seq<char>) -> Option<Seq<char>> {
    match find(body, key) {
        Some(k) => {
            let rest = body.skip(k + key.len());
            Some(trim(rest.take(field_len(rest) as int)))
        },
        None => None,
    }
}

/// The quoted value after the first occurrence of `key`: after optional
/// whitespace a `"` must follow, and the value runs to the next `"`.
pub open spec fn quoted_field_value(body: Seq<char>, key: Seq<char>) -> Option<Seq<char>> {
    match find(body, key) {
        Some(k) => {
            let rest = trim_start(body.skip(k + key.len()));
            if rest.len() > 0 && rest[0] == '"' {
                let inner = rest.drop_first();
                match find(inner, seq!['"']) {
                    Some(e) => Some(inner.take(e)),
                    None => None,
                }
            } else {
                None
            }
        },
        None => None,
    }
}

/// What a `gh pr list --json number,state` body says: `None` for an empty
/// body or an empty list, otherwise the `"number":` field read as a `u64`
/// and the quoted `"state":` field, when both are there.
pub open spec fn pr_summary_of(body: Seq<char>) -> Option<(u64, Seq<char>)> {
    let t = trim(body);
    if t == "[]"@ || t.len() == 0 {
        None
    } else {
        match field_value(t, "\"number\":"@) {
            None => None,
            Some(f) => match parse_u64(f) {
                None => None,
                Some(n) => match quoted_field_value(t, "\"state\":"@) {
                    None => None,
                    Some(st) => Some((n, st)),
                },
            },
        }
    }
}

proof fn lemma_field_len_at(s: Seq<char>, i: int)
    requires
        0 <= i <= s.len(),
        forall|k: int| 0 <= k < i ==> !is_field_end(#[trigger] s[k]),
        i == s.len() || is_field_end(s[i]),
    ensures
        field_len(s) == i,
    decreases i,
{
    if i > 0 {
        let t = s.drop_first();
        assert forall|k: int| 0 <= k < i - 1 implies !is_field_end(#[trigger] t[k]) by {
            assert(t[k] == s[k + 1]);
        }
        lemma_field_len_at(t, i - 1);
    }
}

/// The body `gh pr list --json number,state` prints for one pull request.
pub open spec fn pr_list_body(number: u64, state: Seq<char>) -> Seq<char> {
    "[{\"number\":"@ + decimal(number as nat) + ",\"state\":\""@ + state + "\"}]"@
}

/// Reading back the body of one pull request gives its number and its
/// state, whatever the state says so long as it holds no `"`.
pub proof fn lemma_pr_summary_round_trip(number: u64, state: Seq<char>)
    requires
        forall|i: int| 0 <= i < state.len() ==> state[i] != '"',
    ensures
        pr_summary_of(pr_list_body(number, state)) == Some((number, state)),
{
    reveal_strlit("[{\"number\":");
    reveal_strlit(",\"state\":\"");
    reveal_strlit("\"}]");
    reveal_strlit("\"number\":");
    reveal_strlit("\"state\":");
    reveal_strlit("[]");
    let d = decimal(number as nat);
    lemma_decimal_digits(number as nat);
    lemma_parse_decimal(number);
    let k1 = "\"number\":"@;
    let k2 = "\"state\":"@;
    let b = pr_list_body(number, state);
    let dl = d.len() as int;
    let sl = state.len() as int;
    assert(b.len() == 11 + dl + 10 + sl + 3);
    assert forall|j: int| 0 <= j < dl implies #[trigger] b[11 + j] == d[j] && is_digit(d[j]) by {}
    assert(b[0] == '[' && b[1] == '{' && b[b.len() - 1] == ']');
    lemma_trim_unchanged(b);
    let t = trim(b);
    assert(t != "[]"@);
    // The number.
    assert(b.subrange(2, 11) =~= k1);
    assert forall|j: int| 0 <= j < 2 implies !occurs_at(b, k1, j) by {
        assert(b.subrange(j, j + 9)[0] == b[j]);
    }
    lemma_find_first(b, k1, 2);
    let rest = b.skip(11);
    assert forall|j: int| 0 <= j < dl implies !is_field_end(#[trigger] rest[j]) by {
        assert(rest[j] == b[11 + j]);
    }
    assert(rest[dl] == ',');
    lemma_field_len_at(rest, dl);
    assert(rest.take(dl) =~= d);
    lemma_trim_unchanged(d);
    assert(field_value(t, k1) == Some(d));
    // The state.
    let p = 12 + dl;
    assert(b.subrange(p, p + 8) =~= k2);
    assert forall|j: int| 0 <= j < p implies !occurs_at(b, k2, j) by {
        if occurs_at(b, k2, j) {
            assert(b.subrange(j, j + 8)[0] == b[j]);
            assert(b.subrange(j, j + 8)[1] == b[j + 1]);
            if 11 <= j < 11 + dl {
                assert(b[11 + (j - 11)] == d[j - 11]);
            }
        }
    }
    lemma_find_first(b, k2, p);
    let rest2 = b.skip(p + 8);
    assert(rest2[0] == '"');
    assert(rest2.len() > 0);
    lemma_trim_start_at(rest2, 0);
    assert(rest2.subrange(0, rest2.len() as int) == rest2);
    let inner = rest2.drop_first();
    assert(inner =~= state + "\"}]"@);
    assert(inner.subrange(sl, sl + 1) =~= seq!['"']);
    assert forall|j: int| 0 <= j < sl implies !occurs_at(inner, seq!['"'], j) by {
        assert(inner.subrange(j, j + 1)[0] == inner[j]);
    }
    lemma_find_first(inner, seq!['"'], sl);
    assert(inner.take(sl) =~= state);
    assert(quoted_field_value(t, k2) == Some(state));
}

/// Compares two character vectors.
pub fn chars_eq(a: &Vec<char>, b: &Vec<char>) -> (r: bool)
    ensures
        r == (a@ == b@),
{
    if a.len() != b.len() {
        return false;
    }
    let mut i: usize = 0;
    while i < a.len()
        invariant
            i <= a@.len() == b@.len(),
            forall|k: int| 0 <= k < i ==> a@[k] == b@[k],
        decreases a@.len() - i,
    {
        if a[i] != b[i] {
            return false;
        }
        i = i + 1;
    }
    assert(a@ == b@);
    true
}

/// Reads the unquoted value of `key` out of `body`.
pub fn extract_field(body: &Vec<char>, key: &Vec<char>) -> (r: Option<String>)
    ensures
        match field_value(body@, key@) {
            Some(v) => r is Some && r->0@ == v,
            None => r is None,
        },
{
    proof {
        lemma_find_contains(body@, key@);
    }
    let k = match find_chars(body, key) {
        Some(k) => k,
        None => return None,
    };
    let klen = key.len();
    let blen = body.len();
    assert(occurs_at(body@, key@, k as int));
    let start = k + klen;
    let n = blen;
    let ghost rest = body@.skip(start as int);
    let mut end: usize = start;
    while end < n && !(body[end] == ',' || body[end] == '}' || body[end] == ']')
        invariant
            start <= end <= n == body@.len(),
            rest == body@.skip(start as int),
            forall|j: int| 0 <= j < end - start ==> !is_field_end(#[trigger] rest[j]),
        decreases n - end,
    {
        assert(rest[end - start] == body@[end as int]);
        end = end + 1;
    }
    proof {
        if end < n {
            assert(rest[end - start] == body@[end as int]);
        }
        lemma_field_len_at(rest, end - start);
    }
    let piece = string_of_range(body, start, end);
    assert(piece@ == rest.take(field_len(rest) as int));
    let pv = to_chars(piece.as_str());
    let (lo, hi) = trim_bounds(&pv);
    Some(string_of_range(&pv, lo, hi))
}

/// Reads the quoted value of `key` out of `body`.
pub fn extract_quoted_field(body: &Vec<char>, key: &Vec<char>) -> (r: Option<String>)
    ensures
        match quoted_field_value(body@, key@) {
            Some(v) => r is Some && r->0@ == v,
            None => r is None,
        },
{
    proof {
        lemma_find_contains(body@, key@);
    }
    let k = match find_chars(body, key) {
        Some(k) => k,
        None => return None,
    };
    let klen = key.len();
    let blen = body.len();
    assert(occurs_at(body@, key@, k as int));
    let start = k + klen;
    let after = string_of_range(body, start, body.len());
    assert(after@ == body@.skip(start as int));
    let av = to_chars(after.as_str());
    let lo = trim_start_index(&av);
    let rest = string_of_range(&av, lo, av.len());
    let rv = to_chars(rest.as_str());
    if rv.len() == 0 || rv[0] != '"' {
        return None;
    }
    let inner = string_of_range(&rv, 1, rv.len());
    let iv = to_chars(inner.as_str());
    assert(iv@ == rv@.drop_first());
    let quote = to_chars("\"");
    proof {
        reveal_strlit("\"");
        assert(quote@ == seq!['"']);
    }
    let e = match find_chars(&iv, &quote) {
        Some(e) => e,
        None => return None,
    };
    proof {
        lemma_find_contains(iv@, quote@);
    }
    Some(string_of_range(&iv, 0, e))
}

/// Reads the number and state of a pull request out of the JSON body that
/// `gh pr list --json number,state` prints.
pub fn parse_pr_summary(body: &str) -> (r: Option<PrSummary>)
    ensures
        match pr_summary_of(body@) {
            Some(v) => r is Some && r->0@ == v,
            None => r is None,
        },
{
    let bv = to_chars(body);
    let (lo, hi) = trim_bounds(&bv);
    let t = string_of_range(&bv, lo, hi);
    let tv = to_chars(t.as_str());
    let empty_list = to_chars("[]");
    if chars_eq(&tv, &empty_list) || tv.len() == 0 {
        return None;
    }
    let number_key = to_chars("\"number\":");
    let f = match extract_field(&tv, &number_key) {
        Some(f) => f,
        None => return None,
    };
    let number = match parse_u64_str(f.as_str()) {
        Some(n) => n,
        None => return None,
    };
    let state_key = to_chars("\"state\":");
    let state = match extract_quoted_field(&tv, &state_key) {
        Some(st) => st,
        None => return None,
    };
    Some(PrSummary { number, state })
}

/// The arguments of `gh pr list --head <branch> --state <state>`.
pub fn has_pr_in_state_args(branch: &str, state: &str) -> (r: Vec<String>)
    ensures
        views(r@) == seq!["pr"@, "list"@, "--head"@, branch@, "--state"@, state@],
{
    let r = vec![
        owned("pr"),
        owned("list"),
        owned("--head"),
        owned(branch),
        owned("--state"),
        owned(state),
    ];
    assert(views(r@) == seq!["pr"@, "list"@, "--head"@, branch@, "--state"@, state@]);
    r
}

/// The context of the error when `gh` cannot be started.
pub open spec fn gh_spawn_context() -> Seq<char> {
    "spawning gh (is the gh CLI installed and authenticated?)"@
}

/// What `has_pr_in_state` returns for a run of `gh pr list --head <branch>
/// --state <state>`.
pub open spec fn pr_lookup(branch: Seq<char>, state: Seq<char>, ran: Captured) -> Result<bool, ErrorView> {
    match ran {
        Err(cause) => Err(ErrorView::Spawn { context: gh_spawn_context(), cause: cause@ }),
        Ok(out) => if exit_ok(out.code) {
            Ok(some_line_contains(lines(utf8_lossy(out.stdout@)), branch))
        } else {
            Err(
                ErrorView::Failed {
                    command: "gh pr list --head "@ + branch + " --state "@ + state,
                    detail: failure_detail(out.stderr@, out.code),
                },
            )
        },
    }
}

/// Whether `gh pr list --head <branch> --state <state>`, run as `ran`, lists a
/// pull request of the branch: some line of its output contains the branch
/// name. Errors when gh cannot be started or fails.
pub fn has_pr_in_state(branch: &str, state: &str, ran: &Captured) -> (r: Result<bool, WtError>)
    ensures
        match pr_lookup(branch@, state@, *ran) {
            Ok(b) => r == Ok::<bool, WtError>(b),
            Err(e) => r is Err && r->Err_0@ == e,
        },
{
    match ran {
        Err(cause) => Err(
            WtError::Spawn {
                context: owned("spawning gh (is the gh CLI installed and authenticated?)"),
                cause: owned(cause.as_str()),
            },
        ),
        Ok(out) => {
            if !exit_succeeded(out.code) {
                let mut command = owned("gh pr list --head ");
                push_str(&mut command, branch);
                push_str(&mut command, " --state ");
                push_str(&mut command, state);
                return Err(WtError::Failed { command, detail: describe_failure(out) });
            }
            let text = utf8_lossy_string(&out.stdout);
            let tv = to_chars(text.as_str());
            let bv = to_chars(branch);
            Ok(any_line_contains(&tv, &bv))
        },
    }
}

/// The arguments of `gh pr list --head <branch> --state all --json
/// number,state --limit 1`.
pub fn pr_summary_args(branch: &str) -> (r: Vec<String>)
    ensures
        views(r@) == seq![
            "pr"@,
            "list"@,
            "--head"@,
            branch@,
            "--state"@,
            "all"@,
            "--json"@,
            "number,state"@,
            "--limit"@,
            "1"@,
        ],
{
    let r = vec![
        owned("pr"),
        owned("list"),
        owned("--head"),
        owned(branch),
        owned("--state"),
        owned("all"),
        owned("--json"),
        owned("number,state"),
        owned("--limit"),
        owned("1"),
    ];
    assert(views(r@) == seq![
        "pr"@,
        "list"@,
        "--head"@,
        branch@,
        "--state"@,
        "all"@,
        "--json"@,
        "number,state"@,
        "--limit"@,
        "1"@,
    ]);
    r
}

/// What `pr_summary_best_effort` finds in a run of `gh pr list --json`.
pub open spec fn pr_summary_seen(ran: Captured) -> Option<(u64, Seq<char>)> {
    match ran {
        Ok(out) => if exit_ok(out.code) && valid_utf8(out.stdout@) {
            pr_summary_of(decode_utf8(out.stdout@))
        } else {
            None
        },
        Err(_) => None,
    }
}

/// The pull request of a branch as `gh pr list --json` reports it, or `None`
/// when gh could not be started, failed, printed something that is not
/// UTF-8, or listed nothing readable.
pub fn pr_summary_best_effort(ran: &Captured) -> (r: Option<PrSummary>)
    ensures
        match pr_summary_seen(*ran) {
            Some(v) => r is Some && r->0@ == v,
            None => r is None,
        },
{
    match ran {
        Err(_) => None,
        Ok(out) => {
            if !exit_succeeded(out.code) {
                return None;
            }
            match utf8_strict(&out.stdout) {
                Ok(body) => parse_pr_summary(body.as_str()),
                Err(_) => None,
            }
        },
    }
}

} // verus!
