//! What a finished child process left behind, as plain values, and the
//! command lines that errors name.

use vstd::prelude::*;

use crate::text::{push_char, push_str, trim, utf8_lossy};

verus! {

/// The outcome of a process whose output was captured: its exit code
/// (`None` when a signal ended it) and the bytes it wrote.
#[derive(Debug)]
pub struct CommandOutput {
    pub code: Option<i32>,
    pub stdout: Vec<u8>,
    pub stderr: Vec<u8>,
}

/// A process that ran to the end, or the text of the error that kept it from
/// starting.
pub type Captured = Result<CommandOutput, String>;

/// The exit code of a process whose output went to the terminal, or the text
/// of the error that kept it from starting.
pub type Finished = Result<Option<i32>, String>;

/// A process succeeded when it exited with code 0.
pub open spec fn exit_ok(code: Option<i32>) -> bool {
    code == Some(0i32)
}

/// Tests an exit code for success.
pub fn exit_succeeded(code: Option<i32>) -> (b: bool)
    ensures
        b == exit_ok(code),
{
    match code {
        Some(c) => c == 0,
        None => false,
    }
}

/// The views of a list of strings.
pub open spec fn views(v: Seq<String>) -> Seq<Seq<char>> {
    v.map_values(|a: String| a@)
}

/// The views of a list after a push.
pub proof fn lemma_views_push(v: Seq<String>, x: String)
    ensures
        views(v.push(x)) == views(v).push(x@),
{
    assert(views(v.push(x)) =~= views(v).push(x@));
}

/// Words joined with single spaces (`[..].join(" ")`).
pub open spec fn join_words(ws: Seq<Seq<char>>) -> Seq<char>
    decreases ws.len(),
{
    if ws.len() == 0 {
        Seq::empty()
    } else if ws.len() == 1 {
        ws[0]
    } else {
        join_words(ws.drop_last()) + seq![' '] + ws.last()
    }
}

/// A program name followed by its arguments, as error messages show it.
pub open spec fn command_line(program: Seq<char>, args: Seq<Seq<char>>) -> Seq<char> {
    program + seq![' '] + join_words(args)
}

/// Appends the arguments joined with single spaces.
pub fn push_joined(s: &mut String, args: &Vec<String>)
    ensures
        final(s)@ == old(s)@ + join_words(views(args@)),
{
    let mut i: usize = 0;
    while i < args.len()
        invariant
            i <= args@.len(),
            s@ == old(s)@ + join_words(views(args@.take(i as int))),
        decreases args@.len() - i,
    {
        let ghost before = s@;
        if i > 0 {
            push_char(s, ' ');
        }
        push_str(s, args[i].as_str());
        proof {
            let w = views(args@.take(i + 1));
            assert(w.drop_last() == views(args@.take(i as int)));
            assert(w.last() == args@[i as int]@);
            if i == 0 {
                assert(w == seq![args@[0]@]);
                assert(views(args@.take(0)) == Seq::<Seq<char>>::empty());
            }
        }
        i = i + 1;
    }
    assert(args@.take(args@.len() as int) == args@);
}

/// The command line of `program` with `args`.
pub fn format_command(program: &str, args: &Vec<String>) -> (r: String)
    ensures
        r@ == command_line(program@, views(args@)),
{
    let mut s = String::new();
    push_str(&mut s, program);
    push_char(&mut s, ' ');
    push_joined(&mut s, args);
    s
}

/// How a failed run is described: its trimmed error output, or its exit
/// code when that output is blank.
pub open spec fn failure_detail(stderr: Seq<u8>, code: Option<i32>) -> Seq<char> {
    let t = trim(utf8_lossy(stderr));
    if t.len() == 0 {
        "exit code "@ + crate::error::debug_code(code)
    } else {
        t
    }
}

/// Describes a failed run.
pub fn describe_failure(out: &CommandOutput) -> (r: String)
    ensures
        r@ == failure_detail(out.stderr@, out.code),
{
    let e = crate::text::utf8_lossy_string(&out.stderr);
    let t = crate::text::trim_str(e.as_str());
    let tv = crate::text::to_chars(t.as_str());
    if tv.len() == 0 {
        let mut s = String::new();
        push_str(&mut s, "exit code ");
        crate::error::push_debug_code(&mut s, out.code);
        s
    } else {
        t
    }
}

} // verus!
