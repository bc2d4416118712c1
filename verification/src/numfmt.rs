//! Decimal rendering of integers, with proofs that the rendering is
//! injective. Durations and ports appear inside fingerprint identity
//! strings and URLs, and injectivity is what makes a changed duration
//! change the identity string.

use vstd::prelude::*;

use crate::text::push_char;

verus! {

/// The character for a single decimal digit value.
pub open spec fn digit_char(d: int) -> char {
    if d == 0 {
        '0'
    } else if d == 1 {
        '1'
    } else if d == 2 {
        '2'
    } else if d == 3 {
        '3'
    } else if d == 4 {
        '4'
    } else if d == 5 {
        '5'
    } else if d == 6 {
        '6'
    } else if d == 7 {
        '7'
    } else if d == 8 {
        '8'
    } else {
        '9'
    }
}

/// The usual decimal digit string of a nonnegative integer, most
/// significant digit first, with no leading zeros (and `0` itself
/// rendered as a single `'0'`).
pub open spec fn dec_digits(n: nat) -> Seq<char>
    decreases n,
{
    if n < 10 {
        seq![digit_char(n as int)]
    } else {
        dec_digits(n / 10).push(digit_char((n % 10) as int))
    }
}

/// The decimal string of an integer, with a leading minus sign when
/// negative.
pub open spec fn dec_int(v: int) -> Seq<char> {
    if v < 0 {
        seq!['-'] + dec_digits((-v) as nat)
    } else {
        dec_digits(v as nat)
    }
}

/// Whether `c` is a decimal digit character.
pub open spec fn is_dec_digit(c: char) -> bool {
    c == '0' || c == '1' || c == '2' || c == '3' || c == '4' || c == '5' || c == '6' || c == '7'
        || c == '8' || c == '9'
}

proof fn lemma_dec_digits_len(n: nat)
    ensures
        dec_digits(n).len() >= 1,
        n >= 10 ==> dec_digits(n).len() >= 2,
    decreases n,
{
    if n >= 10 {
        lemma_dec_digits_len(n / 10);
    }
}

proof fn lemma_dec_digits_first_is_digit(n: nat)
    ensures
        is_dec_digit(dec_digits(n)[0]),
    decreases n,
{
    if n >= 10 {
        lemma_dec_digits_first_is_digit(n / 10);
        lemma_dec_digits_len(n / 10);
    }
}

/// Distinct nonnegative integers have distinct decimal digit strings.
pub proof fn lemma_dec_digits_injective(a: nat, b: nat)
    requires
        dec_digits(a) == dec_digits(b),
    ensures
        a == b,
    decreases a,
{
    lemma_dec_digits_len(a);
    lemma_dec_digits_len(b);
    if a < 10 && b < 10 {
        assert(dec_digits(a)[0] == digit_char(a as int));
        assert(dec_digits(b)[0] == digit_char(b as int));
    } else if a < 10 {
        assert(dec_digits(a).len() == 1);
    } else if b < 10 {
        assert(dec_digits(b).len() == 1);
    } else {
        let da = dec_digits(a / 10);
        let db = dec_digits(b / 10);
        assert(dec_digits(a).last() == digit_char((a % 10) as int));
        assert(dec_digits(b).last() == digit_char((b % 10) as int));
        assert(a % 10 == b % 10);
        assert(da =~= dec_digits(a).drop_last());
        assert(db =~= dec_digits(b).drop_last());
        lemma_dec_digits_injective(a / 10, b / 10);
    }
}

/// Distinct integers have distinct decimal strings.
pub proof fn lemma_dec_int_injective(a: int, b: int)
    requires
        dec_int(a) == dec_int(b),
    ensures
        a == b,
{
    if a >= 0 && b >= 0 {
        lemma_dec_digits_injective(a as nat, b as nat);
    } else if a < 0 && b < 0 {
        let x = dec_digits((-a) as nat);
        let y = dec_digits((-b) as nat);
        crate::text::lemma_concat_cancel_left(seq!['-'], x, y);
        lemma_dec_digits_injective((-a) as nat, (-b) as nat);
    } else if a < 0 {
        lemma_dec_digits_first_is_digit(b as nat);
        assert(dec_int(a)[0] == '-');
    } else {
        lemma_dec_digits_first_is_digit(a as nat);
        assert(dec_int(b)[0] == '-');
    }
}

fn digit_to_char(d: u64) -> (c: char)
    requires
        d < 10,
    ensures
        c == digit_char(d as int),
{
    if d == 0 {
        '0'
    } else if d == 1 {
        '1'
    } else if d == 2 {
        '2'
    } else if d == 3 {
        '3'
    } else if d == 4 {
        '4'
    } else if d == 5 {
        '5'
    } else if d == 6 {
        '6'
    } else if d == 7 {
        '7'
    } else if d == 8 {
        '8'
    } else {
        '9'
    }
}

/// Decimal rendering of an unsigned integer.
pub fn u64_to_string(n: u64) -> (r: String)
    ensures
        r@ == dec_digits(n as nat),
{
    let mut digits: Vec<char> = Vec::new();
    let mut m: u64 = n;
    while m >= 10
        invariant
            dec_digits(n as nat) == dec_digits(m as nat) + digits@.reverse(),
        decreases m,
    {
        let d = digit_to_char(m % 10);
        let ghost pre = digits@;
        digits.push(d);
        proof {
            assert(dec_digits(m as nat) == dec_digits((m as nat) / 10).push(digit_char(
                ((m as nat) % 10) as int,
            )));
            assert(digits@.reverse() =~= seq![d] + pre.reverse());
            assert(dec_digits((m as nat) / 10) + digits@.reverse() =~= dec_digits(m as nat)
                + pre.reverse());
            assert((m / 10) as nat == (m as nat) / 10);
        }
        m = m / 10;
    }
    let mut out = String::new();
    push_char(&mut out, digit_to_char(m));
    let mut i: usize = digits.len();
    while i > 0
        invariant
            i <= digits@.len(),
            out@ == seq![digit_char(m as int)] + digits@.subrange(
                i as int,
                digits@.len() as int,
            ).reverse(),
        decreases i,
    {
        i -= 1;
        let ghost pre = out@;
        push_char(&mut out, digits[i]);
        proof {
            assert(digits@.subrange(i as int, digits@.len() as int).reverse() =~= digits@.subrange(
                i + 1,
                digits@.len() as int,
            ).reverse().push(digits@[i as int]));
            assert(out@ =~= seq![digit_char(m as int)] + digits@.subrange(
                i as int,
                digits@.len() as int,
            ).reverse());
        }
    }
    proof {
        assert(digits@.subrange(0, digits@.len() as int) =~= digits@);
        assert(out@ =~= dec_digits(m as nat) + digits@.reverse());
    }
    out
}

/// Decimal rendering of a signed integer.
pub fn i64_to_string(v: i64) -> (r: String)
    ensures
        r@ == dec_int(v as int),
{
    if v >= 0 {
        u64_to_string(v as u64)
    } else {
        let m: u64 = if v == i64::MIN {
            9223372036854775808u64
        } else {
            (-v) as u64
        };
        assert(m as nat == (-(v as int)) as nat);
        let mut out = String::new();
        push_char(&mut out, '-');
        let d = u64_to_string(m);
        out.append(d.as_str());
        proof {
            assert(out@ =~= seq!['-'] + dec_digits((-(v as int)) as nat));
        }
        out
    }
}

} // verus!
