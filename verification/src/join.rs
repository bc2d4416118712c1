//! Comma-joining of string lists, with length facts. The sorted,
//! normalized artist names of a song or album are comma-joined into the
//! identity string that gets hashed.

use vstd::prelude::*;

use crate::order::views_of;

verus! {

broadcast use vstd::seq::group_seq_axioms;

/// The parts joined with a single comma between neighbours.
pub open spec fn join_commas(parts: Seq<Seq<char>>) -> Seq<char>
    decreases parts.len(),
{
    if parts.len() == 0 {
        Seq::empty()
    } else if parts.len() == 1 {
        parts[0]
    } else {
        parts[0] + seq![','] + join_commas(parts.drop_first())
    }
}

/// The total length of all the parts.
pub open spec fn sum_len(parts: Seq<Seq<char>>) -> nat
    decreases parts.len(),
{
    if parts.len() == 0 {
        0
    } else {
        parts[0].len() + sum_len(parts.drop_first())
    }
}

/// Joining one more part appends a comma and that part.
pub proof fn lemma_join_push(s: Seq<Seq<char>>, x: Seq<char>)
    requires
        s.len() >= 1,
    ensures
        join_commas(s.push(x)) == join_commas(s) + seq![','] + x,
    decreases s.len(),
{
    if s.len() == 1 {
        let p = s.push(x);
        assert(p.len() == 2);
        assert(p.drop_first() =~= seq![x]);
        assert(join_commas(p) == p[0] + seq![','] + join_commas(p.drop_first()));
        assert(join_commas(seq![x]) == x);
        assert(p[0] == s[0]);
        assert(join_commas(s) == s[0]);
    } else {
        let p = s.push(x);
        assert(p.drop_first() =~= s.drop_first().push(x));
        lemma_join_push(s.drop_first(), x);
        assert(join_commas(p) == p[0] + seq![','] + join_commas(s.drop_first().push(x)));
        assert(p[0] == s[0]);
        assert(s[0] + seq![','] + (join_commas(s.drop_first()) + seq![','] + x) =~= (s[0]
            + seq![','] + join_commas(s.drop_first())) + seq![','] + x);
    }
}

/// The length of a join: the parts plus one comma between neighbours.
pub proof fn lemma_join_len(s: Seq<Seq<char>>)
    ensures
        s.len() == 0 ==> join_commas(s).len() == 0,
        s.len() > 0 ==> join_commas(s).len() == sum_len(s) + s.len() - 1,
    decreases s.len(),
{
    if s.len() == 1 {
        assert(join_commas(s) == s[0]);
        assert(sum_len(Seq::<Seq<char>>::empty()) == 0);
        assert(sum_len(s.drop_first()) == 0);
        assert(sum_len(s) == s[0].len() + sum_len(s.drop_first()));
    } else if s.len() > 1 {
        lemma_join_len(s.drop_first());
        assert(join_commas(s) == s[0] + seq![','] + join_commas(s.drop_first()));
        assert(sum_len(s) == s[0].len() + sum_len(s.drop_first()));
    }
}

/// Appending a part adds its length to the total.
pub proof fn lemma_sum_len_push(s: Seq<Seq<char>>, x: Seq<char>)
    ensures
        sum_len(s.push(x)) == sum_len(s) + x.len(),
    decreases s.len(),
{
    if s.len() == 0 {
        assert(s.push(x).drop_first() =~= Seq::<Seq<char>>::empty());
        assert(s.push(x)[0] == x);
        assert(sum_len(Seq::<Seq<char>>::empty()) == 0);
        assert(sum_len(s.push(x)) == x.len() + sum_len(s.push(x).drop_first()));
    } else {
        assert(s.push(x).drop_first() =~= s.drop_first().push(x));
        lemma_sum_len_push(s.drop_first(), x);
        assert(s.push(x)[0] == s[0]);
        assert(sum_len(s.push(x)) == s[0].len() + sum_len(s.push(x).drop_first()));
        assert(sum_len(s) == s[0].len() + sum_len(s.drop_first()));
    }
}

/// Removing one part subtracts its length from the total.
proof fn lemma_sum_len_remove(s: Seq<Seq<char>>, j: int)
    requires
        0 <= j < s.len(),
    ensures
        sum_len(s) == s[j].len() + sum_len(s.remove(j)),
    decreases j,
{
    if j == 0 {
        assert(s.remove(0) =~= s.drop_first());
    } else {
        assert(s.remove(j).drop_first() =~= s.drop_first().remove(j - 1));
        assert(s.remove(j)[0] == s[0]);
        lemma_sum_len_remove(s.drop_first(), j - 1);
    }
}

/// The total length of the parts depends only on what the parts are, not
/// on their order.
pub proof fn lemma_sum_len_multiset(s: Seq<Seq<char>>, t: Seq<Seq<char>>)
    requires
        s.to_multiset() == t.to_multiset(),
    ensures
        sum_len(s) == sum_len(t),
    decreases s.len(),
{
    broadcast use vstd::seq_lib::group_to_multiset_ensures;

    if s.len() == 0 {
        assert(s.to_multiset().len() == s.len());
        assert(t.to_multiset().len() == t.len());
        assert(t.len() == 0);
    } else {
        let x = s[0];
        assert(s.contains(x));
        assert(t.to_multiset().count(x) > 0);
        assert(t.contains(x));
        let j = choose|j: int| 0 <= j < t.len() && t[j] == x;
        assert(s.remove(0).to_multiset() == s.to_multiset().remove(x));
        assert(t.remove(j).to_multiset() == t.to_multiset().remove(x));
        assert(s.remove(0) =~= s.drop_first());
        lemma_sum_len_multiset(s.drop_first(), t.remove(j));
        lemma_sum_len_remove(t, j);
    }
}

/// The strings of `v` joined with commas.
pub fn join_with_commas(v: &Vec<String>) -> (r: String)
    ensures
        r@ == join_commas(views_of(v@)),
{
    let mut out = String::new();
    if v.len() == 0 {
        assert(views_of(v@).len() == 0);
        return out;
    }
    out.append(v[0].as_str());
    assert(out@ =~= views_of(v@).subrange(0, 1)[0]);
    assert(views_of(v@).subrange(0, 1).len() == 1);
    let mut i: usize = 1;
    while i < v.len()
        invariant
            1 <= i <= v@.len(),
            out@ == join_commas(views_of(v@).subrange(0, i as int)),
        decreases v@.len() - i,
    {
        let ghost pre = views_of(v@).subrange(0, i as int);
        out.append(",");
        out.append(v[i].as_str());
        proof {
            reveal_strlit(",");
            assert(","@ =~= seq![',']);
            lemma_join_push(pre, v@[i as int]@);
            assert(views_of(v@).subrange(0, i + 1) =~= pre.push(v@[i as int]@));
            assert(out@ =~= join_commas(pre) + seq![','] + v@[i as int]@);
        }
        i += 1;
    }
    proof {
        assert(views_of(v@).subrange(0, v@.len() as int) =~= views_of(v@));
    }
    out
}

} // verus!
