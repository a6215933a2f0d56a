//! Unix paths held as strings: absolute paths, joining, and resolution of
//! configured paths against the repository root.

use vstd::prelude::*;

use crate::text::owned;
use crate::text::push_char;
use crate::text::push_str;

verus! {

/// A path is absolute when it starts at the root `/` (`Path::is_absolute`
/// on Unix).
pub open spec fn is_absolute(p: Seq<char>) -> bool {
    p.len() > 0 && p[0] == '/'
}

/// `base.join(p)` as `PathBuf::push` does it on Unix: an absolute `p`
/// replaces `base`; otherwise `p` is appended, with a `/` in between unless
/// `base` is empty or already ends in `/`.
pub open spec fn join(base: Seq<char>, p: Seq<char>) -> Seq<char> {
    if is_absolute(p) {
        p
    } else if base.len() == 0 || base.last() == '/' {
        base + p
    } else {
        base + seq!['/'] + p
    }
}

/// Tests whether a path is absolute.
pub fn path_is_absolute(p: &str) -> (b: bool)
    ensures
        b == is_absolute(p@),
{
    let v = crate::text::to_chars(p);
    v.len() > 0 && v[0] == '/'
}

/// Joins `p` onto `base`.
pub fn join_path(base: &str, p: &str) -> (r: String)
    ensures
        r@ == join(base@, p@),
{
    if path_is_absolute(p) {
        return owned(p);
    }
    let bv = crate::text::to_chars(base);
    let mut r = owned(base);
    if bv.len() > 0 && bv[bv.len() - 1] != '/' {
        push_char(&mut r, '/');
    }
    push_str(&mut r, p);
    r
}

/// Resolves a configured path: absolute paths are kept as they are, relative
/// ones are joined to `repo_root`.
pub fn resolve_path(repo_root: &str, p: &str) -> (r: String)
    ensures
        r@ == (if is_absolute(p@) {
            p@
        } else {
            join(repo_root@, p@)
        }),
{
    if path_is_absolute(p) {
        owned(p)
    } else {
        join_path(repo_root, p)
    }
}

} // verus!
