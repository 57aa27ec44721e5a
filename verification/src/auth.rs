//! The sync server's bearer-token check: a request gets through exactly
//! when the token it presents is the shared secret.

use vstd::prelude::*;
use crate::service::begins;
use crate::text::{chars_eq, chars_of};

verus! {

/// The token a request presents: what follows `Bearer ` in its
/// `Authorization` header, or nothing when the header is missing, not
/// readable as text, or of another scheme.
pub open spec fn presented_token(header: Option<Seq<char>>) -> Seq<char> {
    match header {
        Some(h) => if begins(h, "Bearer "@) { h.skip(7) } else { Seq::empty() },
        None => Seq::empty(),
    }
}

/// Whether a request whose `Authorization` header reads `header` (`None`
/// when missing or not text) may pass, the server's secret being
/// `expected`.
pub fn bearer_authorized(header: Option<&str>, expected: &str) -> (r: bool)
    ensures
        r == (presented_token(match header { Some(h) => Some(h@), None => None::<Seq<char>> }) == expected@),
{
    proof {
        reveal_strlit("Bearer ");
    }
    let scheme = chars_of("Bearer ");
    let provided: Vec<char> = match header {
        Some(h) => {
            let v = chars_of(h);
            if v.len() >= scheme.len() {
                let mut head: Vec<char> = Vec::new();
                let mut i: usize = 0;
                while i < scheme.len()
                    invariant
                        0 <= i <= scheme@.len(),
                        scheme@.len() <= v@.len(),
                        head@ == v@.take(i as int),
                    decreases scheme@.len() - i,
                {
                    head.push(v[i]);
                    i = i + 1;
                    assert(v@.take(i as int) =~= v@.take(i - 1).push(v@[i - 1]));
                }
                if chars_eq(&head, &scheme) {
                    let mut rest: Vec<char> = Vec::new();
                    let mut j: usize = scheme.len();
                    while j < v.len()
                        invariant
                            scheme@.len() <= j <= v@.len(),
                            rest@ == v@.subrange(scheme@.len() as int, j as int),
                        decreases v@.len() - j,
                    {
                        rest.push(v[j]);
                        j = j + 1;
                        assert(v@.subrange(scheme@.len() as int, j as int) =~= v@.subrange(
                            scheme@.len() as int,
                            j - 1,
                        ).push(v@[j - 1]));
                    }
                    assert(rest@ =~= v@.skip(7));
                    rest
                } else {
                    Vec::new()
                }
            } else {
                Vec::new()
            }
        },
        None => Vec::new(),
    };
    let want = chars_of(expected);
    chars_eq(&provided, &want)
}

} // verus!
