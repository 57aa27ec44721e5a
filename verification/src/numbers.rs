//! Reading integers from text as `str::parse` does for `u32` and `i64`:
//! an optional sign, then one or more ASCII digits, in range.

use vstd::prelude::*;

verus! {

/// Every character of `s` is an ASCII digit.
pub open spec fn all_digits(s: Seq<char>) -> bool {
    forall|i: int| 0 <= i < s.len() ==> '0' <= #[trigger] s[i] <= '9'
}

/// The value of the ASCII digits `s`, most significant first.
pub open spec fn digits_value(s: Seq<char>) -> nat
    decreases s.len(),
{
    if s.len() == 0 {
        0
    } else {
        digits_value(s.drop_last()) * 10 + ((s.last() as int) - ('0' as int)) as nat
    }
}

/// `s` without a leading `+`.
pub open spec fn unplussed(s: Seq<char>) -> Seq<char> {
    if s.len() > 0 && s[0] == '+' { s.skip(1) } else { s }
}

/// What `s.parse::<u32>()` gives: `+` is allowed in front, `-` is not.
pub open spec fn u32_text(s: Seq<char>) -> Option<u32> {
    let d = unplussed(s);
    if d.len() > 0 && all_digits(d) && digits_value(d) <= u32::MAX {
        Some(digits_value(d) as u32)
    } else {
        None
    }
}

/// What `s.parse::<i64>()` gives: `+` or `-` is allowed in front.
pub open spec fn i64_text(s: Seq<char>) -> Option<i64> {
    if s.len() > 0 && s[0] == '-' {
        let d = s.skip(1);
        if d.len() > 0 && all_digits(d) && digits_value(d) <= 0x8000_0000_0000_0000 {
            Some((-(digits_value(d) as int)) as i64)
        } else {
            None
        }
    } else {
        let d = unplussed(s);
        if d.len() > 0 && all_digits(d) && digits_value(d) <= i64::MAX {
            Some(digits_value(d) as i64)
        } else {
            None
        }
    }
}

/// The digits of `s` from `start`, with their value held at `cap`: `None`
/// when there are none or one is not a digit.
fn capped_digits(s: &Vec<char>, start: usize, cap: u128) -> (r: Option<u128>)
    requires
        start <= s.len(),
        cap < 0x1000_0000_0000_0000_0000_0000,
    ensures
        r is Some <==> s@.skip(start as int).len() > 0 && all_digits(s@.skip(start as int)),
        r matches Some(v) ==> v == (if digits_value(s@.skip(start as int)) < cap {
            digits_value(s@.skip(start as int))
        } else {
            cap as nat
        }),
{
    let ghost d = s@.skip(start as int);
    if start == s.len() {
        return None;
    }
    let mut acc: u128 = 0;
    let mut i: usize = start;
    while i < s.len()
        invariant
            start <= i <= s.len(),
            d == s@.skip(start as int),
            cap < 0x1000_0000_0000_0000_0000_0000,
            all_digits(s@.subrange(start as int, i as int)),
            acc == (if digits_value(s@.subrange(start as int, i as int)) < cap {
                digits_value(s@.subrange(start as int, i as int))
            } else {
                cap as nat
            }),
        decreases s.len() - i,
    {
        let c = s[i];
        if c < '0' || c > '9' {
            assert(d[i - start] == c);
            return None;
        }
        let dv: u128 = ((c as u32) - ('0' as u32)) as u128;
        let ghost prev = s@.subrange(start as int, i as int);
        let ghost next = s@.subrange(start as int, i + 1);
        assert(next.drop_last() =~= prev);
        assert(digits_value(next) == digits_value(prev) * 10 + dv);
        if acc >= cap {
            assert(digits_value(next) >= digits_value(prev)) by (nonlinear_arith)
                requires digits_value(next) == digits_value(prev) * 10 + dv;
            acc = cap;
        } else {
            let v: u128 = acc * 10 + dv;
            acc = if v < cap { v } else { cap };
        }
        i = i + 1;
        assert forall|k: int| 0 <= k < next.len() implies '0' <= #[trigger] next[k] <= '9' by {
            if k < prev.len() {
                assert(next[k] == prev[k]);
            }
        }
    }
    assert(s@.subrange(start as int, s.len() as int) =~= d);
    Some(acc)
}

/// Reads a `u32` as `str::parse::<u32>` does.
pub fn parse_u32(s: &str) -> (r: Option<u32>)
    ensures
        r == u32_text(s@),
{
    let cs = crate::text::chars_of(s);
    let start: usize = if cs.len() > 0 && cs[0] == '+' { 1 } else { 0 };
    proof {
        assert(unplussed(s@) =~= cs@.skip(start as int));
    }
    match capped_digits(&cs, start, 0x1_0000_0000u128) {
        Some(v) => if v <= 0xFFFF_FFFFu128 { Some(v as u32) } else { None },
        None => None,
    }
}

/// Reads an `i64` as `str::parse::<i64>` does.
pub fn parse_i64(s: &str) -> (r: Option<i64>)
    ensures
        r == i64_text(s@),
{
    let cs = crate::text::chars_of(s);
    if cs.len() > 0 && cs[0] == '-' {
        match capped_digits(&cs, 1, 0x8000_0000_0000_0001u128) {
            Some(v) => if v <= 0x8000_0000_0000_0000u128 {
                if v == 0x8000_0000_0000_0000u128 {
                    Some(i64::MIN)
                } else {
                    Some(-(v as i64))
                }
            } else {
                None
            },
            None => None,
        }
    } else {
        let start: usize = if cs.len() > 0 && cs[0] == '+' { 1 } else { 0 };
        proof {
            assert(unplussed(s@) =~= cs@.skip(start as int));
        }
        match capped_digits(&cs, start, 0x8000_0000_0000_0000u128) {
            Some(v) => if v <= 0x7FFF_FFFF_FFFF_FFFFu128 { Some(v as i64) } else { None },
            None => None,
        }
    }
}

} // verus!
