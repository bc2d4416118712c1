//! Lexicographic ordering of strings by Unicode code point, and a verified
//! sort. Artist names are sorted into this order before they enter a
//! fingerprint, so the hash does not depend on credit order.

use vstd::prelude::*;
use vstd::relations::{sorted_by, total_ordering};
use vstd::seq_lib::lemma_sorted_unique;

verus! {

/// Lexicographic "less than or equal" on character sequences, comparing
/// code points position by position.
pub open spec fn lex_le(a: Seq<char>, b: Seq<char>) -> bool
    decreases a.len(),
{
    if a.len() == 0 {
        true
    } else if b.len() == 0 {
        false
    } else if a[0] < b[0] {
        true
    } else if b[0] < a[0] {
        false
    } else {
        lex_le(a.drop_first(), b.drop_first())
    }
}

/// `lex_le` as a first-class relation, for use with vstd's ordering
/// machinery.
pub open spec fn lex_leq() -> spec_fn(Seq<char>, Seq<char>) -> bool {
    |a: Seq<char>, b: Seq<char>| lex_le(a, b)
}

proof fn lemma_lex_le_refl(a: Seq<char>)
    ensures
        lex_le(a, a),
    decreases a.len(),
{
    if a.len() > 0 {
        lemma_lex_le_refl(a.drop_first());
    }
}

proof fn lemma_lex_le_antisym(a: Seq<char>, b: Seq<char>)
    requires
        lex_le(a, b),
        lex_le(b, a),
    ensures
        a == b,
    decreases a.len(),
{
    if a.len() == 0 {
        assert(b.len() == 0);
        assert(a =~= b);
    } else {
        assert(b.len() > 0);
        assert(a[0] == b[0]);
        lemma_lex_le_antisym(a.drop_first(), b.drop_first());
        assert(a.drop_first().len() == a.len() - 1);
        assert(b.drop_first().len() == b.len() - 1);
        assert(a.len() == b.len());
        assert forall|i: int| 0 <= i < a.len() implies a[i] == b[i] by {
            if i > 0 {
                assert(a.drop_first()[i - 1] == a[i]);
                assert(b.drop_first()[i - 1] == b[i]);
            }
        }
        assert(a =~= b);
    }
}

proof fn lemma_lex_le_connected(a: Seq<char>, b: Seq<char>)
    ensures
        lex_le(a, b) || lex_le(b, a),
    decreases a.len(),
{
    if a.len() > 0 && b.len() > 0 && a[0] == b[0] {
        lemma_lex_le_connected(a.drop_first(), b.drop_first());
    }
}

proof fn lemma_lex_le_trans(a: Seq<char>, b: Seq<char>, c: Seq<char>)
    requires
        lex_le(a, b),
        lex_le(b, c),
    ensures
        lex_le(a, c),
    decreases a.len(),
{
    if a.len() > 0 {
        assert(b.len() > 0);
        assert(c.len() > 0);
        if a[0] == b[0] && b[0] == c[0] {
            lemma_lex_le_trans(a.drop_first(), b.drop_first(), c.drop_first());
        }
    }
}

/// `lex_le` is a total ordering, so sorting by it has a unique result.
pub proof fn lemma_lex_total_ordering()
    ensures
        total_ordering(lex_leq()),
{
    let leq = lex_leq();
    assert forall|a: Seq<char>| #[trigger] leq(a, a) by {
        lemma_lex_le_refl(a);
    }
    assert forall|a: Seq<char>, b: Seq<char>| #[trigger] leq(a, b) && #[trigger] leq(b, a)
        implies a == b by {
        lemma_lex_le_antisym(a, b);
    }
    assert forall|a: Seq<char>, b: Seq<char>| !(#[trigger] leq(a, b)) implies leq(b, a) by {
        lemma_lex_le_connected(a, b);
    }
    assert forall|a: Seq<char>, b: Seq<char>, c: Seq<char>|
        #[trigger] leq(a, b) && #[trigger] leq(b, c) implies leq(a, c) by {
        lemma_lex_le_trans(a, b, c);
    }
}

/// Exact lexicographic comparison of two string slices.
pub fn str_lex_le(a: &str, b: &str) -> (r: bool)
    ensures
        r == lex_le(a@, b@),
{
    let alen = a.unicode_len();
    let blen = b.unicode_len();
    let mut i: usize = 0;
    proof {
        assert(a@.skip(0) =~= a@);
        assert(b@.skip(0) =~= b@);
    }
    loop
        invariant
            alen == a@.len(),
            blen == b@.len(),
            i <= alen,
            i <= blen,
            lex_le(a@, b@) == lex_le(a@.skip(i as int), b@.skip(i as int)),
        decreases alen - i,
    {
        if i >= alen {
            assert(a@.skip(i as int).len() == 0);
            return true;
        }
        if i >= blen {
            assert(b@.skip(i as int).len() == 0);
            assert(a@.skip(i as int).len() > 0);
            return false;
        }
        let ca = a.get_char(i);
        let cb = b.get_char(i);
        proof {
            assert(a@.skip(i as int)[0] == a@[i as int]);
            assert(b@.skip(i as int)[0] == b@[i as int]);
        }
        if (ca as u32) < (cb as u32) {
            return true;
        }
        if (ca as u32) > (cb as u32) {
            return false;
        }
        proof {
            assert(ca == cb);
            assert(a@.skip(i as int).drop_first() =~= a@.skip(i + 1));
            assert(b@.skip(i as int).drop_first() =~= b@.skip(i + 1));
        }
        i += 1;
    }
}

/// The views of the strings in `v`, as a sequence of character sequences.
pub open spec fn views_of(v: Seq<String>) -> Seq<Seq<char>> {
    Seq::new(v.len(), |i: int| v[i]@)
}

/// The position at which `x` is to be inserted into the sorted list `out`:
/// the first position holding an element not lexicographically below `x`.
fn find_insert_pos(x: &String, out: &Vec<String>) -> (j: usize)
    ensures
        j <= out@.len(),
        forall|k: int| 0 <= k < j ==> !lex_le(x@, views_of(out@)[k]),
        j < out@.len() ==> lex_le(x@, views_of(out@)[j as int]),
{
    let mut j: usize = 0;
    while j < out.len()
        invariant
            j <= out@.len(),
            forall|k: int| 0 <= k < j ==> !lex_le(x@, views_of(out@)[k]),
        decreases out@.len() - j,
    {
        if str_lex_le(x.as_str(), out[j].as_str()) {
            return j;
        }
        j += 1;
    }
    j
}

/// The strings of `v` arranged into lexicographic order.
pub fn sort_strings(v: &Vec<String>) -> (r: Vec<String>)
    ensures
        views_of(r@) == views_of(v@).sort_by(lex_leq()),
{
    let leq = Ghost(lex_leq());
    proof {
        lemma_lex_total_ordering();
        assert(views_of(Seq::<String>::empty()) =~= Seq::<Seq<char>>::empty());
        assert(Seq::<Seq<char>>::empty() =~= views_of(v@).subrange(0, 0));
    }
    let mut out: Vec<String> = Vec::new();
    let mut i: usize = 0;
    while i < v.len()
        invariant
            i <= v@.len(),
            sorted_by(views_of(out@), leq@),
            leq@ == lex_leq(),
            views_of(out@).to_multiset() == views_of(v@).subrange(0, i as int).to_multiset(),
        decreases v@.len() - i,
    {
        broadcast use vstd::seq_lib::group_to_multiset_ensures;

        let x = v[i].clone();
        let ghost pre = views_of(out@);
        let j = find_insert_pos(&x, &out);
        let ghost jj = j as int;
        out.insert(j, x);
        proof {
            let xx = v@[i as int]@;
            assert(views_of(out@) =~= pre.insert(jj, xx));
            assert forall|p: int, q: int| 0 <= p < q < views_of(out@).len() implies #[trigger] leq@(
                views_of(out@)[p],
                views_of(out@)[q],
            ) by {
                let s = views_of(out@);
                if q < jj {
                    assert(s[p] == pre[p] && s[q] == pre[q]);
                    assert(leq@(pre[p], pre[q]));
                } else if p > jj {
                    assert(s[p] == pre[p - 1] && s[q] == pre[q - 1]);
                    assert(leq@(pre[p - 1], pre[q - 1]));
                } else if p < jj && q == jj {
                    assert(s[p] == pre[p] && s[q] == xx);
                    lemma_lex_le_connected(xx, pre[p]);
                    assert(!lex_le(xx, pre[p]));
                } else if p < jj && q > jj {
                    assert(s[p] == pre[p] && s[q] == pre[q - 1]);
                    assert(leq@(pre[p], pre[q - 1]));
                } else {
                    assert(p == jj && q > jj);
                    assert(s[p] == xx && s[q] == pre[q - 1]);
                    assert(lex_le(xx, pre[jj]));
                    if q - 1 > jj {
                        assert(leq@(pre[jj], pre[q - 1]));
                        lemma_lex_le_trans(xx, pre[jj], pre[q - 1]);
                    }
                }
            }
            vstd::seq_lib::to_multiset_insert(pre, jj, xx);
            assert(views_of(v@).subrange(0, i + 1).drop_last() =~= views_of(v@).subrange(
                0,
                i as int,
            ));
            assert(views_of(v@).subrange(0, i + 1) =~= views_of(v@).subrange(0, i as int).push(
                xx,
            ));
        }
        i += 1;
    }
    proof {
        assert(views_of(v@).subrange(0, v@.len() as int) =~= views_of(v@));
        views_of(v@).lemma_sort_by_ensures(leq@);
        lemma_sorted_unique(views_of(out@), views_of(v@).sort_by(leq@), leq@);
    }
    out
}

} // verus!
