//! The order in which worktree names are listed: `String`'s own order, which
//! compares the UTF-8 bytes of two strings lexicographically.

use vstd::prelude::*;
use vstd::relations::{sorted_by, total_ordering};
use vstd::utf8::{encode_utf8, encode_utf8_decode_utf8};

use crate::process::views;

verus! {

/// Lexicographic order on byte sequences: a proper prefix comes first.
pub open spec fn lex_le(a: Seq<u8>, b: Seq<u8>) -> bool
    decreases a.len(),
{
    if a.len() == 0 {
        true
    } else if b.len() == 0 {
        false
    } else if a[0] != b[0] {
        a[0] < b[0]
    } else {
        lex_le(a.drop_first(), b.drop_first())
    }
}

/// The order of two names: that of their UTF-8 encodings.
pub open spec fn name_le(a: Seq<char>, b: Seq<char>) -> bool {
    lex_le(encode_utf8(a), encode_utf8(b))
}

/// The order of names as a relation.
pub open spec fn name_order() -> spec_fn(Seq<char>, Seq<char>) -> bool {
    |a: Seq<char>, b: Seq<char>| name_le(a, b)
}

proof fn lemma_lex_refl(a: Seq<u8>)
    ensures
        lex_le(a, a),
    decreases a.len(),
{
    if a.len() > 0 {
        lemma_lex_refl(a.drop_first());
    }
}

proof fn lemma_lex_total(a: Seq<u8>, b: Seq<u8>)
    ensures
        lex_le(a, b) || lex_le(b, a),
    decreases a.len(),
{
    if a.len() > 0 && b.len() > 0 && a[0] == b[0] {
        lemma_lex_total(a.drop_first(), b.drop_first());
    }
}

proof fn lemma_lex_antisym(a: Seq<u8>, b: Seq<u8>)
    requires
        lex_le(a, b),
        lex_le(b, a),
    ensures
        a == b,
    decreases a.len(),
{
    if a.len() == 0 {
        assert(b.len() == 0);
    } else {
        lemma_lex_antisym(a.drop_first(), b.drop_first());
        assert(a == seq![a[0]] + a.drop_first());
        assert(b == seq![b[0]] + b.drop_first());
    }
}

proof fn lemma_lex_trans(a: Seq<u8>, b: Seq<u8>, c: Seq<u8>)
    requires
        lex_le(a, b),
        lex_le(b, c),
    ensures
        lex_le(a, c),
    decreases a.len(),
{
    if a.len() > 0 && b.len() > 0 && c.len() > 0 && a[0] == b[0] && b[0] == c[0] {
        lemma_lex_trans(a.drop_first(), b.drop_first(), c.drop_first());
    }
}

/// The order of names is a total order.
pub proof fn lemma_name_order_total()
    ensures
        total_ordering(name_order()),
{
    let r = name_order();
    assert forall|x: Seq<char>| #[trigger] r(x, x) by {
        lemma_lex_refl(encode_utf8(x));
    }
    assert forall|x: Seq<char>, y: Seq<char>| #[trigger] r(x, y) && #[trigger] r(y, x) implies x
        == y by {
        lemma_lex_antisym(encode_utf8(x), encode_utf8(y));
        encode_utf8_decode_utf8(x);
        encode_utf8_decode_utf8(y);
    }
    assert forall|x: Seq<char>, y: Seq<char>, z: Seq<char>| #[trigger] r(x, y) && #[trigger] r(
        y,
        z,
    ) implies r(x, z) by {
        lemma_lex_trans(encode_utf8(x), encode_utf8(y), encode_utf8(z));
    }
    assert forall|x: Seq<char>, y: Seq<char>| #[trigger] r(x, y) || #[trigger] r(y, x) by {
        lemma_lex_total(encode_utf8(x), encode_utf8(y));
    }
}

/// Compares two names in `String`'s order (by their UTF-8 bytes).
pub fn name_le_exec(a: &str, b: &str) -> (r: bool)
    ensures
        r == name_le(a@, b@),
{
    let ab = a.as_bytes();
    let bb = b.as_bytes();
    let ghost sa = ab@;
    let ghost sb = bb@;
    let mut i: usize = 0;
    assert(sa.skip(0) == sa && sb.skip(0) == sb);
    while i < ab.len() && i < bb.len() && ab[i] == bb[i]
        invariant
            i <= ab@.len(),
            i <= bb@.len(),
            sa == ab@,
            sb == bb@,
            forall|k: int| 0 <= k < i ==> sa[k] == sb[k],
            lex_le(sa, sb) == lex_le(sa.skip(i as int), sb.skip(i as int)),
        decreases ab@.len() - i,
    {
        assert(sa.skip(i as int).drop_first() == sa.skip(i + 1));
        assert(sb.skip(i as int).drop_first() == sb.skip(i + 1));
        i = i + 1;
    }
    assert(sa.skip(i as int).len() == sa.len() - i);
    if i == ab.len() {
        true
    } else if i == bb.len() {
        false
    } else {
        assert(sa.skip(i as int)[0] == sa[i as int]);
        assert(sb.skip(i as int)[0] == sb[i as int]);
        ab[i] < bb[i]
    }
}

/// Sorts names into `String`'s order.
pub fn sort_names(v: Vec<String>) -> (r: Vec<String>)
    ensures
        views(r@) == views(v@).sort_by(name_order()),
{
    broadcast use vstd::seq_lib::group_to_multiset_ensures;
    broadcast use vstd::multiset::group_multiset_axioms;

    proof {
        lemma_name_order_total();
    }
    let ghost leq = name_order();
    let mut r: Vec<String> = Vec::new();
    let n = v.len();
    let mut i: usize = 0;
    while i < n
        invariant
            i <= n == v@.len(),
            leq == name_order(),
            total_ordering(leq),
            sorted_by(views(r@), leq),
            views(r@).to_multiset() == views(v@.take(i as int)).to_multiset(),
        decreases n - i,
    {
        let x = v[i].clone();
        let mut pos: usize = 0;
        while pos < r.len() && name_le_exec(r[pos].as_str(), x.as_str())
            invariant
                pos <= r@.len(),
                forall|k: int| 0 <= k < pos ==> name_le(#[trigger] r@[k]@, x@),
            decreases r@.len() - pos,
        {
            pos = pos + 1;
        }
        let ghost old_r = views(r@);
        r.insert(pos, x);
        proof {
            let nr = views(r@);
            assert(nr == old_r.insert(pos as int, x@));
            assert forall|a: int, b: int| 0 <= a < b < nr.len() implies #[trigger] leq(
                nr[a],
                nr[b],
            ) by {
                if b < pos {
                    assert(nr[a] == old_r[a] && nr[b] == old_r[b]);
                } else if b == pos {
                    assert(nr[a] == old_r[a]);
                } else if a > pos {
                    assert(nr[a] == old_r[a - 1] && nr[b] == old_r[b - 1]);
                } else if a == pos {
                    assert(nr[b] == old_r[b - 1]);
                    assert(!name_le(old_r[pos as int], x@));
                    assert(leq(x@, old_r[pos as int]) || leq(old_r[pos as int], x@));
                    if b - 1 > pos {
                        assert(leq(old_r[pos as int], old_r[b - 1]));
                    }
                } else {
                    assert(nr[a] == old_r[a] && nr[b] == old_r[b - 1]);
                }
            }
            assert(nr.remove(pos as int) == old_r);
            assert(nr[pos as int] == x@);
            vstd::seq_lib::to_multiset_remove(nr, pos as int);
            assert(nr.to_multiset().remove(x@) == old_r.to_multiset());
            assert(nr.contains(x@));
            nr.to_multiset_ensures();
            assert(nr.to_multiset().count(x@) > 0);
            assert(nr.to_multiset() =~= old_r.to_multiset().insert(x@));
            assert(views(v@.take(i + 1)) == views(v@.take(i as int)).push(v@[i as int]@));
            vstd::seq_lib::to_multiset_build(views(v@.take(i as int)), v@[i as int]@);
        }
        i = i + 1;
    }
    proof {
        assert(v@.take(n as int) == v@);
        views(v@).lemma_sort_by_ensures(leq);
        vstd::seq_lib::lemma_sorted_unique(views(r@), views(v@).sort_by(leq), leq);
    }
    r
}

} // verus!
