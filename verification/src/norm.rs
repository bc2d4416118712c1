//! Canonicalization of textual identity fields: trim leading and trailing
//! whitespace, lowercase, and collapse internal whitespace runs to a single
//! space. Every identity field passes through this before it is hashed, so
//! fingerprints are insensitive to formatting.

use vstd::prelude::*;

use crate::text::{char_is_whitespace, is_space, push_char};

verus! {

/// What the standard library's Unicode lowercase conversion returns for `s`.
/// Named, not defined: the mapping is the Unicode case-folding table.
pub uninterp spec fn lower_of(s: Seq<char>) -> Seq<char>;

/// Relies on str::to_lowercase: the result is a pure function of the input
/// characters (the Unicode lowercase mapping; no locale is involved).
#[verifier::external_body]
fn to_lowercase(s: &str) -> (r: String)
    ensures
        r@ == lower_of(s@),
{
    s.to_lowercase()
}

/// `s` with its leading whitespace removed.
pub open spec fn trim_left_spec(s: Seq<char>) -> Seq<char>
    decreases s.len(),
{
    if s.len() == 0 {
        s
    } else if is_space(s[0]) {
        trim_left_spec(s.drop_first())
    } else {
        s
    }
}

/// `s` with its trailing whitespace removed.
pub open spec fn trim_right_spec(s: Seq<char>) -> Seq<char>
    decreases s.len(),
{
    if s.len() == 0 {
        s
    } else if is_space(s.last()) {
        trim_right_spec(s.drop_last())
    } else {
        s
    }
}

/// `s` with leading and trailing whitespace removed.
pub open spec fn trim_spec(s: Seq<char>) -> Seq<char> {
    trim_right_spec(trim_left_spec(s))
}

/// The tail of the whitespace-collapsed form of `s`, starting at index `i`;
/// `prev` records whether the character written just before position `i`
/// was the collapsed space of a whitespace run still in progress.
pub open spec fn collapse_from(s: Seq<char>, i: int, prev: bool) -> Seq<char>
    decreases s.len() - i,
{
    if i < 0 || i >= s.len() {
        Seq::empty()
    } else if is_space(s[i]) {
        if prev {
            collapse_from(s, i + 1, true)
        } else {
            seq![' '] + collapse_from(s, i + 1, true)
        }
    } else {
        seq![s[i]] + collapse_from(s, i + 1, false)
    }
}

/// `s` with every whitespace run replaced by a single space.
pub open spec fn collapse_spec(s: Seq<char>) -> Seq<char> {
    collapse_from(s, 0, false)
}

/// Canonical form of a textual identity field: trimmed, lowercased, inner
/// whitespace runs collapsed to single spaces.
pub open spec fn norm_spec(s: Seq<char>) -> Seq<char> {
    collapse_spec(lower_of(trim_spec(s)))
}

proof fn lemma_trim_left_at(s: Seq<char>, i: int)
    requires
        0 <= i <= s.len(),
        forall|j: int| 0 <= j < i ==> is_space(s[j]),
        i == s.len() || !is_space(s[i]),
    ensures
        trim_left_spec(s) =~= s.subrange(i, s.len() as int),
    decreases i,
{
    if i == 0 {
        if s.len() == 0 {
        } else {
            assert(trim_left_spec(s) == s);
        }
    } else {
        let rest = s.drop_first();
        assert(is_space(s[0]));
        assert(forall|j: int| 0 <= j < i - 1 ==> is_space(rest[j]));
        lemma_trim_left_at(rest, i - 1);
        assert(rest.subrange(i - 1, rest.len() as int) =~= s.subrange(i, s.len() as int));
    }
}

proof fn lemma_trim_right_at(s: Seq<char>, e: int)
    requires
        0 <= e <= s.len(),
        forall|j: int| e <= j < s.len() ==> is_space(s[j]),
        e == 0 || !is_space(s[e - 1]),
    ensures
        trim_right_spec(s) =~= s.subrange(0, e),
    decreases s.len() - e,
{
    if e == s.len() {
        if s.len() == 0 {
        } else {
            assert(!is_space(s.last()));
            assert(trim_right_spec(s) == s);
        }
    } else {
        let head = s.drop_last();
        assert(is_space(s.last()));
        lemma_trim_right_at(head, e);
        assert(head.subrange(0, e) =~= s.subrange(0, e));
    }
}

/// Index of the first character of `s` that is not whitespace, or the
/// length of `s` if every character is whitespace.
fn first_non_space_index(s: &str) -> (i: usize)
    ensures
        i <= s@.len(),
        forall|j: int| 0 <= j < i ==> is_space(s@[j]),
        i == s@.len() || !is_space(s@[i as int]),
{
    let n = s.unicode_len();
    let mut i: usize = 0;
    while i < n
        invariant
            n == s@.len(),
            i <= n,
            forall|j: int| 0 <= j < i ==> is_space(s@[j]),
        decreases n - i,
    {
        if !char_is_whitespace(s.get_char(i)) {
            return i;
        }
        i += 1;
    }
    i
}

/// One past the index of the last non-whitespace character of `s` at
/// position `start` or later, or `start` if there is none.
fn last_non_space_end(s: &str, start: usize) -> (e: usize)
    requires
        start <= s@.len(),
    ensures
        start <= e <= s@.len(),
        forall|j: int| e <= j < s@.len() ==> is_space(s@[j]),
        e == start || !is_space(s@[e - 1]),
{
    let n = s.unicode_len();
    let mut e: usize = n;
    while e > start
        invariant
            n == s@.len(),
            start <= e <= n,
            forall|j: int| e <= j < n ==> is_space(s@[j]),
        decreases e,
    {
        if !char_is_whitespace(s.get_char(e - 1)) {
            return e;
        }
        e -= 1;
    }
    e
}

/// `s` with leading and trailing whitespace removed.
pub fn trim_str<'a>(s: &'a str) -> (r: &'a str)
    ensures
        r@ == trim_spec(s@),
{
    let start = first_non_space_index(s);
    let e = last_non_space_end(s, start);
    let r = s.substring_char(start, e);
    proof {
        lemma_trim_left_at(s@, start as int);
        let t = s@.subrange(start as int, s@.len() as int);
        assert(forall|j: int| e - start <= j < t.len() ==> is_space(t[j]));
        if e > start {
            assert(!is_space(t[e - start - 1]));
        }
        lemma_trim_right_at(t, e - start);
        assert(t.subrange(0, e - start) =~= s@.subrange(start as int, e as int));
        assert(r@ =~= trim_spec(s@));
    }
    r
}

/// `s` with every whitespace run replaced by a single space.
fn collapse_ws(s: &str) -> (r: String)
    ensures
        r@ == collapse_spec(s@),
{
    let n = s.unicode_len();
    let mut out = String::new();
    let mut prev = false;
    let mut i: usize = 0;
    while i < n
        invariant
            n == s@.len(),
            i <= n,
            out@ + collapse_from(s@, i as int, prev) == collapse_spec(s@),
        decreases n - i,
    {
        let c = s.get_char(i);
        let ghost pre = out@;
        if char_is_whitespace(c) {
            if !prev {
                push_char(&mut out, ' ');
                prev = true;
                proof {
                    assert(collapse_from(s@, i as int, false) == seq![' '] + collapse_from(
                        s@,
                        i + 1,
                        true,
                    ));
                    assert(out@ + collapse_from(s@, i + 1, true) =~= pre + collapse_from(
                        s@,
                        i as int,
                        false,
                    ));
                }
            }
        } else {
            push_char(&mut out, c);
            let ghost was = prev;
            prev = false;
            proof {
                assert(collapse_from(s@, i as int, was) == seq![s@[i as int]] + collapse_from(
                    s@,
                    i + 1,
                    false,
                ));
                assert(out@ + collapse_from(s@, i + 1, false) =~= pre + collapse_from(
                    s@,
                    i as int,
                    was,
                ));
            }
        }
        i += 1;
    }
    proof {
        assert(collapse_from(s@, n as int, prev) =~= Seq::<char>::empty());
        assert(out@ =~= collapse_spec(s@));
    }
    out
}

/// Canonical form of a textual identity field: trimmed, lowercased, inner
/// whitespace runs collapsed to single spaces.
pub fn normalize_string(s: &str) -> (r: String)
    ensures
        r@ == norm_spec(s@),
{
    let t = trim_str(s);
    let low = to_lowercase(t);
    collapse_ws(low.as_str())
}

} // verus!
