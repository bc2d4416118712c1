//! The auth gate: bearer-token verification applied to every protected
//! endpoint. A request passes exactly when its authorization header is
//! the scheme prefix followed by the session's token; a missing header,
//! a wrong scheme and a wrong token are all the same failure to the
//! caller.

use vstd::prelude::*;

use crate::text::str_eq;

verus! {

broadcast use vstd::seq::group_seq_axioms;

/// The bearer scheme prefix of an authorization header.
pub open spec fn bearer_prefix() -> Seq<char> {
    seq!['B', 'e', 'a', 'r', 'e', 'r', ' ']
}

/// Whether `header` authorizes a request under `token`: it is present
/// and reads exactly `Bearer <token>`.
pub open spec fn auth_ok(token: Seq<char>, header: Option<Seq<char>>) -> bool {
    match header {
        Some(h) => h.len() >= 7 && h.subrange(0, 7) == bearer_prefix() && h.skip(7) == token,
        None => false,
    }
}

/// The view of an optional header value.
pub open spec fn opt_str_view(o: &Option<String>) -> Option<Seq<char>> {
    match o {
        Some(s) => Some(s@),
        None => None,
    }
}

/// Relies on uuid's Uuid::new_v4 and its hyphenated rendering: a fresh
/// random identifier, 36 characters long. Random, so nothing else is
/// assumed of the value.
#[verifier::external_body]
pub fn generate_token() -> (r: String)
    ensures
        r@.len() == 36,
{
    uuid::Uuid::new_v4().to_string()
}

/// Whether the request header authorizes a request under `token`:
/// accept only `Bearer <token>`, exactly; reject a missing header, a
/// wrong scheme, and a mismatched token alike.
pub fn check_bearer(token: &str, header: &Option<String>) -> (r: bool)
    ensures
        r == auth_ok(token@, opt_str_view(header)),
{
    let h = match header {
        Some(h) => h,
        None => {
            return false;
        },
    };
    let hs = h.as_str();
    let n = hs.unicode_len();
    if n < 7 {
        return false;
    }
    if hs.get_char(0) != 'B' || hs.get_char(1) != 'e' || hs.get_char(2) != 'a' || hs.get_char(3)
        != 'r' || hs.get_char(4) != 'e' || hs.get_char(5) != 'r' || hs.get_char(6) != ' ' {
        proof {
            assert(h@.subrange(0, 7) != bearer_prefix());
        }
        return false;
    }
    proof {
        assert(h@.subrange(0, 7) =~= bearer_prefix());
    }
    let rest = hs.substring_char(7, n);
    let r = str_eq(rest, token);
    proof {
        assert(rest@ =~= h@.skip(7));
    }
    r
}

/// The exact token issued at session start always authorizes: a header
/// of the scheme prefix followed by that token is accepted.
pub proof fn lemma_issued_token_accepted(token: Seq<char>)
    ensures
        auth_ok(token, Some(bearer_prefix() + token)),
{
    let h = bearer_prefix() + token;
    assert(h.subrange(0, 7) =~= bearer_prefix());
    assert(h.skip(7) =~= token);
}

/// A header under the wrong scheme never authorizes, whatever follows
/// it; neither does a header whose token part differs from the
/// session's.
pub proof fn lemma_wrong_header_rejected(token: Seq<char>, h: Seq<char>)
    requires
        h.len() < 7 || h.subrange(0, 7) != bearer_prefix() || h.skip(7) != token,
    ensures
        !auth_ok(token, Some(h)),
{
}

} // verus!
