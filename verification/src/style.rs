//! Terminal styling through `owo_colors`: the escape sequences around
//! styled text, and the padding of styled table cells.

use owo_colors::OwoColorize;
use vstd::prelude::*;

verus! {

/// `s` padded with spaces on the right to `width` characters (as `{:<w$}`
/// pads); unchanged when it is at least that long.
pub open spec fn pad_right(s: Seq<char>, width: nat) -> Seq<char> {
    if s.len() >= width {
        s
    } else {
        s + Seq::new((width - s.len()) as nat, |i: int| ' ')
    }
}

/// `t.yellow()` of `owo_colors`, displayed: the text between the escape
/// sequences that set and reset the foreground color to yellow.
#[verifier::external_body]
pub(crate) fn yellow(t: &str) -> (r: String)
    ensures
        r@ == "\x1b[33m"@ + t@ + "\x1b[39m"@,
{
    format!("{}", t.yellow())
}

/// `t.green()` of `owo_colors`, displayed: the text between the escape
/// sequences that set and reset the foreground color to green.
#[verifier::external_body]
pub(crate) fn green(t: &str) -> (r: String)
    ensures
        r@ == "\x1b[32m"@ + t@ + "\x1b[39m"@,
{
    format!("{}", t.green())
}

/// `t.dimmed()` of `owo_colors`, displayed: the text between the escape
/// sequences that dim it and reset all styles.
#[verifier::external_body]
pub(crate) fn dimmed(t: &str) -> (r: String)
    ensures
        r@ == "\x1b[2m"@ + t@ + "\x1b[0m"@,
{
    format!("{}", t.dimmed())
}

/// `t.bold()` of `owo_colors`, displayed with `{:<width$}`: the text,
/// padded to `width` characters, between the escape sequences that make it
/// bold and reset all styles (the padding applies to the text inside).
#[verifier::external_body]
pub(crate) fn bold_padded(t: &str, width: usize) -> (r: String)
    ensures
        r@ == "\x1b[1m"@ + pad_right(t@, width as nat) + "\x1b[0m"@,
{
    format!("{:<width$}", t.bold(), width = width)
}

} // verus!
