//! Basic character and string utilities shared by the rest of the library:
//! exact string equality, lexicographic comparison by Unicode code point,
//! and thin trusted layers over the standard library's Unicode tables.

use vstd::prelude::*;

verus! {

/// Whether the standard library classifies `c` as whitespace.
/// Named, not defined: the answer is a fixed Unicode property table.
pub uninterp spec fn is_space(c: char) -> bool;

/// Relies on char::is_whitespace: a pure lookup in the Unicode
/// `White_Space` table; the documentation states that a plain space
/// (U+0020) is whitespace.
#[verifier::external_body]
pub fn char_is_whitespace(c: char) -> (r: bool)
    ensures
        r == is_space(c),
        c == ' ' ==> r,
{
    c.is_whitespace()
}

/// Relies on String::push: appends exactly the given character.
#[verifier::external_body]
pub fn push_char(s: &mut String, c: char)
    ensures
        final(s)@ == old(s)@.push(c),
{
    s.push(c)
}

/// A common prefix cancels: if `p + x` and `p + y` are the same sequence,
/// then `x` and `y` are the same sequence.
pub proof fn lemma_concat_cancel_left<A>(p: Seq<A>, x: Seq<A>, y: Seq<A>)
    requires
        p + x == p + y,
    ensures
        x == y,
{
    assert((p + x).len() == p.len() + x.len());
    assert((p + y).len() == p.len() + y.len());
    assert(x.len() == y.len());
    assert forall|i: int| 0 <= i < x.len() implies x[i] == y[i] by {
        assert((p + x)[p.len() + i] == x[i]);
        assert((p + y)[p.len() + i] == y[i]);
    }
    assert(x =~= y);
}

/// A common suffix cancels: if `x + s` and `y + s` are the same sequence,
/// then `x` and `y` are the same sequence.
pub proof fn lemma_concat_cancel_right<A>(x: Seq<A>, y: Seq<A>, s: Seq<A>)
    requires
        x + s == y + s,
    ensures
        x == y,
{
    assert((x + s).len() == x.len() + s.len());
    assert((y + s).len() == y.len() + s.len());
    assert(x.len() == y.len());
    assert forall|i: int| 0 <= i < x.len() implies x[i] == y[i] by {
        assert((x + s)[i] == x[i]);
        assert((y + s)[i] == y[i]);
    }
    assert(x =~= y);
}

/// Exact content equality of two string slices.
pub fn str_eq(a: &str, b: &str) -> (r: bool)
    ensures
        r == (a@ == b@),
{
    let alen = a.unicode_len();
    let blen = b.unicode_len();
    if alen != blen {
        assert(a@ != b@);
        return false;
    }
    let mut i: usize = 0;
    while i < alen
        invariant
            alen == a@.len(),
            blen == b@.len(),
            alen == blen,
            i <= alen,
            forall|j: int| 0 <= j < i ==> a@[j] == b@[j],
        decreases alen - i,
    {
        if a.get_char(i) != b.get_char(i) {
            return false;
        }
        i += 1;
    }
    assert(a@ =~= b@);
    true
}

} // verus!
