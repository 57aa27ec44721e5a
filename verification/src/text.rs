//! Character-level string helpers shared by the rest of the crate.

use vstd::prelude::*;

verus! {

/// The ASCII digit for `d`, which must be below ten.
pub open spec fn digit_char(d: nat) -> char {
    if d == 0 { '0' }
    else if d == 1 { '1' }
    else if d == 2 { '2' }
    else if d == 3 { '3' }
    else if d == 4 { '4' }
    else if d == 5 { '5' }
    else if d == 6 { '6' }
    else if d == 7 { '7' }
    else if d == 8 { '8' }
    else { '9' }
}

/// Decimal representation of a natural number, without leading zeros.
pub open spec fn decimal(n: nat) -> Seq<char>
    decreases n,
{
    if n < 10 {
        seq![digit_char(n)]
    } else {
        decimal(n / 10).push(digit_char(n % 10))
    }
}

/// Decimal representation of an integer, with a leading `-` when negative.
pub open spec fn signed_decimal(i: int) -> Seq<char> {
    if i < 0 {
        seq!['-'] + decimal((-i) as nat)
    } else {
        decimal(i as nat)
    }
}

fn digit(d: u64) -> (c: char)
    requires
        d < 10,
    ensures
        c == digit_char(d as nat),
{
    if d == 0 { '0' }
    else if d == 1 { '1' }
    else if d == 2 { '2' }
    else if d == 3 { '3' }
    else if d == 4 { '4' }
    else if d == 5 { '5' }
    else if d == 6 { '6' }
    else if d == 7 { '7' }
    else if d == 8 { '8' }
    else { '9' }
}

/// Appends the decimal digits of `n` to `out`.
pub fn push_decimal(out: &mut Vec<char>, n: u64)
    ensures
        final(out)@ == old(out)@ + decimal(n as nat),
    decreases n,
{
    if n < 10 {
        out.push(digit(n));
        assert(decimal(n as nat) == seq![digit_char(n as nat)]);
    } else {
        push_decimal(out, n / 10);
        out.push(digit(n % 10));
        assert(decimal(n as nat) == decimal((n / 10) as nat).push(digit_char((n % 10) as nat)));
    }
}

/// Appends the decimal digits of the wide number `n` to `out`.
pub fn push_wide_decimal(out: &mut Vec<char>, n: u128)
    ensures
        final(out)@ == old(out)@ + decimal(n as nat),
    decreases n,
{
    if n < 10 {
        out.push(digit(n as u64));
        assert(decimal(n as nat) == seq![digit_char(n as nat)]);
    } else {
        push_wide_decimal(out, n / 10);
        out.push(digit((n % 10) as u64));
        assert(decimal(n as nat) == decimal((n / 10) as nat).push(digit_char((n % 10) as nat)));
    }
}

/// Appends the decimal digits of `i`, with a leading `-` when negative.
pub fn push_signed_decimal(out: &mut Vec<char>, i: i64)
    ensures
        final(out)@ == old(out)@ + signed_decimal(i as int),
{
    if i < 0 {
        out.push('-');
        let m: u64 = if i == i64::MIN { 9223372036854775808u64 } else { (-i) as u64 };
        push_decimal(out, m);
    } else {
        push_decimal(out, i as u64);
    }
}

/// Appends every character of `s` to `out`.
pub fn push_str(out: &mut Vec<char>, s: &str)
    ensures
        final(out)@ == old(out)@ + s@,
{
    let cs = chars_of(s);
    let mut i: usize = 0;
    let ghost start = out@;
    while i < cs.len()
        invariant
            0 <= i <= cs.len(),
            cs@ == s@,
            out@ == start + s@.subrange(0, i as int),
        decreases cs.len() - i,
    {
        out.push(cs[i]);
        i = i + 1;
        assert(s@.subrange(0, i as int) == s@.subrange(0, (i - 1) as int).push(s@[i - 1]));
    }
    assert(s@.subrange(0, i as int) == s@);
}

/// The characters of `s`, in order.
pub(crate) fn chars_of(s: &str) -> (v: Vec<char>)
    ensures
        v@ == s@,
{
    broadcast use vstd::string::axiom_spec_iter;
    let mut v: Vec<char> = Vec::new();
    for c in it: s.chars()
        invariant
            v@ == it.seq().take(it.index() as int),
            it.seq() == s@,
            it.index() == it.seq().len() ==> v@ == s@,
    {
        v.push(c);
        assert(it.seq().take(it.index() + 1) =~= it.seq().take(it.index() as int).push(c));
    }
    v
}

/// The string made of the characters of `v`, in order
/// (`String::from_iter` over the characters).
#[verifier::external_body]
pub(crate) fn string_of(v: &Vec<char>) -> (s: String)
    ensures
        s@ == v@,
{
    String::from_iter(v)
}

/// Whether two character sequences are equal.
pub fn chars_eq(a: &Vec<char>, b: &Vec<char>) -> (r: bool)
    ensures
        r == (a@ == b@),
{
    if a.len() != b.len() {
        return false;
    }
    let mut i: usize = 0;
    while i < a.len()
        invariant
            a.len() == b.len(),
            0 <= i <= a.len(),
            forall|j: int| 0 <= j < i ==> a@[j] == b@[j],
        decreases a.len() - i,
    {
        if a[i] != b[i] {
            return false;
        }
        i = i + 1;
    }
    assert(a@ =~= b@);
    true
}

/// Whether two strings hold the same characters.
pub fn str_eq(a: &str, b: &str) -> (r: bool)
    ensures
        r == (a@ == b@),
{
    let x = chars_of(a);
    let y = chars_of(b);
    chars_eq(&x, &y)
}


/// Whether `c` is an ASCII character.
pub open spec fn is_ascii_char(c: char) -> bool {
    (c as u32) < 128
}

/// Whether every character of `s` is ASCII.
pub open spec fn all_ascii(s: Seq<char>) -> bool {
    forall|i: int| 0 <= i < s.len() ==> is_ascii_char(#[trigger] s[i])
}

/// ASCII lowercase of one character; other characters are unchanged.
pub open spec fn ascii_lower_char(c: char) -> char {
    if 'A' <= c <= 'Z' {
        ((c as u32) + 32) as char
    } else {
        c
    }
}

/// ASCII lowercase of every character of `s`.
pub open spec fn ascii_lower(s: Seq<char>) -> Seq<char> {
    s.map_values(|c: char| ascii_lower_char(c))
}

/// Whether `c` is an ASCII letter or digit.
pub open spec fn is_ascii_alnum(c: char) -> bool {
    ('a' <= c <= 'z') || ('A' <= c <= 'Z') || ('0' <= c <= '9')
}

/// Name for what `str::to_lowercase` returns: the Unicode lowercase mapping
/// of a whole string.
pub uninterp spec fn lowercase_of(s: Seq<char>) -> Seq<char>;

/// Name for `char::is_alphanumeric`: Unicode `Alphabetic` or `Numeric`.
pub uninterp spec fn is_alphanumeric_char(c: char) -> bool;

/// Name for `char::is_whitespace`: the Unicode `White_Space` property.
pub uninterp spec fn is_whitespace_char(c: char) -> bool;

/// Unicode lowercase of `s`: the ASCII lowercase of each character when `s`
/// is ASCII, otherwise the named Unicode mapping.
pub open spec fn lowercase(s: Seq<char>) -> Seq<char> {
    if all_ascii(s) {
        ascii_lower(s)
    } else {
        lowercase_of(s)
    }
}

/// Whether `c` is alphanumeric: an ASCII letter or digit in the ASCII
/// range, otherwise the named Unicode property.
pub open spec fn alnum(c: char) -> bool {
    if is_ascii_char(c) {
        is_ascii_alnum(c)
    } else {
        is_alphanumeric_char(c)
    }
}

/// Whether `c` is whitespace: space, tab, line feed, vertical tab, form
/// feed or carriage return in the ASCII range, otherwise the named Unicode
/// property.
pub open spec fn whitespace(c: char) -> bool {
    if is_ascii_char(c) {
        c == ' ' || ('\t' <= c <= '\r')
    } else {
        is_whitespace_char(c)
    }
}

/// Calls `str::to_lowercase`. On ASCII input the result is the ASCII
/// lowercase of each character, as the Unicode tables give for that range;
/// otherwise it is named `lowercase_of`, and what it holds is left unsaid.
#[verifier::external_body]
pub(crate) fn to_lowercase(s: &str) -> (r: String)
    ensures
        r@ == lowercase(s@),
        !all_ascii(s@) ==> r@ == lowercase_of(s@),
{
    s.to_lowercase()
}

/// Calls `char::is_alphanumeric`. On ASCII characters the result holds
/// exactly for letters and digits; otherwise it is named
/// `is_alphanumeric_char`.
#[verifier::external_body]
pub(crate) fn is_alphanumeric(c: char) -> (r: bool)
    ensures
        r == alnum(c),
        !is_ascii_char(c) ==> r == is_alphanumeric_char(c),
{
    c.is_alphanumeric()
}

/// Calls `char::is_whitespace`. On ASCII characters the result holds
/// exactly for space and the control characters from tab to carriage
/// return; otherwise it is named `is_whitespace_char`.
#[verifier::external_body]
pub(crate) fn is_whitespace(c: char) -> (r: bool)
    ensures
        r == whitespace(c),
        !is_ascii_char(c) ==> r == is_whitespace_char(c),
{
    c.is_whitespace()
}

/// Drops leading characters of `s` that satisfy `p`.
pub open spec fn drop_leading(s: Seq<char>, p: spec_fn(char) -> bool) -> Seq<char>
    decreases s.len(),
{
    if s.len() > 0 && p(s[0]) {
        drop_leading(s.drop_first(), p)
    } else {
        s
    }
}

/// Drops trailing characters of `s` that satisfy `p`.
pub open spec fn drop_trailing(s: Seq<char>, p: spec_fn(char) -> bool) -> Seq<char>
    decreases s.len(),
{
    if s.len() > 0 && p(s.last()) {
        drop_trailing(s.drop_last(), p)
    } else {
        s
    }
}

/// The predicate "is whitespace", as a function value.
pub open spec fn space_pred() -> spec_fn(char) -> bool {
    |c: char| whitespace(c)
}

/// `s` without leading and trailing whitespace, as `str::trim` gives it.
pub open spec fn trimmed(s: Seq<char>) -> Seq<char> {
    drop_trailing(drop_leading(s, space_pred()), space_pred())
}

/// `drop_leading` keeps a suffix of `s` that does not start with a dropped
/// character.
pub proof fn lemma_drop_leading_shape(s: Seq<char>, p: spec_fn(char) -> bool) -> (j: int)
    ensures
        0 <= j <= s.len(),
        drop_leading(s, p) == s.subrange(j, s.len() as int),
        drop_leading(s, p).len() > 0 ==> !p(drop_leading(s, p)[0]),
    decreases s.len(),
{
    if s.len() > 0 && p(s[0]) {
        let j0 = lemma_drop_leading_shape(s.drop_first(), p);
        assert(s.drop_first().subrange(j0, s.drop_first().len() as int) =~= s.subrange(j0 + 1, s.len() as int));
        j0 + 1
    } else {
        assert(s.subrange(0, s.len() as int) =~= s);
        0
    }
}

/// `drop_trailing` keeps a prefix of `s` that does not end with a dropped
/// character.
pub proof fn lemma_drop_trailing_shape(s: Seq<char>, p: spec_fn(char) -> bool) -> (e: int)
    ensures
        0 <= e <= s.len(),
        drop_trailing(s, p) == s.take(e),
        drop_trailing(s, p).len() > 0 ==> !p(drop_trailing(s, p).last()),
    decreases s.len(),
{
    if s.len() > 0 && p(s.last()) {
        let e0 = lemma_drop_trailing_shape(s.drop_last(), p);
        assert(s.drop_last().take(e0) =~= s.take(e0));
        e0
    } else {
        assert(s.take(s.len() as int) =~= s);
        s.len() as int
    }
}

proof fn lemma_drop_leading_from(s: Seq<char>, i: int, p: spec_fn(char) -> bool)
    requires
        0 <= i <= s.len(),
        forall|j: int| 0 <= j < i ==> p(#[trigger] s[j]),
    ensures
        drop_leading(s, p) == drop_leading(s.subrange(i, s.len() as int), p),
    decreases i,
{
    if i > 0 {
        assert(s.drop_first().subrange(i - 1, s.drop_first().len() as int) =~= s.subrange(i, s.len() as int));
        lemma_drop_leading_from(s.drop_first(), i - 1, p);
    } else {
        assert(s.subrange(0, s.len() as int) =~= s);
    }
}

proof fn lemma_drop_trailing_to(s: Seq<char>, e: int, p: spec_fn(char) -> bool)
    requires
        0 <= e <= s.len(),
        forall|j: int| e <= j < s.len() ==> p(#[trigger] s[j]),
    ensures
        drop_trailing(s, p) == drop_trailing(s.subrange(0, e), p),
    decreases s.len() - e,
{
    if e < s.len() {
        assert(s.drop_last().subrange(0, e) =~= s.subrange(0, e));
        lemma_drop_trailing_to(s.drop_last(), e, p);
    } else {
        assert(s.subrange(0, e) =~= s);
    }
}

/// The characters of `s` without leading and trailing whitespace.
pub fn trim_chars(s: &str) -> (r: Vec<char>)
    ensures
        r@ == trimmed(s@),
{
    let cs = chars_of(s);
    let ghost p = space_pred();
    let mut start: usize = 0;
    while start < cs.len() && is_whitespace(cs[start])
        invariant
            0 <= start <= cs.len(),
            forall|j: int| 0 <= j < start ==> whitespace(#[trigger] cs@[j]),
        decreases cs.len() - start,
    {
        start = start + 1;
    }
    proof {
        lemma_drop_leading_from(cs@, start as int, p);
        let rest = cs@.subrange(start as int, cs@.len() as int);
        if rest.len() > 0 {
            assert(rest[0] == cs@[start as int]);
        }
    }
    let mut end: usize = cs.len();
    while end > start && is_whitespace(cs[end - 1])
        invariant
            start <= end <= cs.len(),
            forall|j: int| end <= j < cs.len() ==> whitespace(#[trigger] cs@[j]),
        decreases end,
    {
        end = end - 1;
    }
    let mut out: Vec<char> = Vec::new();
    let mut i: usize = start;
    while i < end
        invariant
            start <= i <= end,
            end <= cs.len(),
            out@ == cs@.subrange(start as int, i as int),
        decreases end - i,
    {
        out.push(cs[i]);
        i = i + 1;
        assert(cs@.subrange(start as int, i as int) == cs@.subrange(start as int, (i - 1) as int).push(cs@[i - 1]));
    }
    proof {
        let rest = cs@.subrange(start as int, cs@.len() as int);
        assert(drop_leading(cs@, p) == rest);
        assert forall|j: int| (end - start) <= j < rest.len() implies p(#[trigger] rest[j]) by {
            assert(rest[j] == cs@[j + start]);
        }
        lemma_drop_trailing_to(rest, end - start, p);
        let mid = rest.subrange(0, end - start);
        assert(mid =~= out@);
        if mid.len() > 0 {
            assert(mid.last() == cs@[end - 1]);
        }
        assert(trimmed(s@) == drop_trailing(drop_leading(cs@, p), p));
    }
    out
}

/// The end of the run of non-whitespace characters starting at `k`.
pub open spec fn word_end(s: Seq<char>, k: int) -> int
    decreases s.len() - k,
{
    if 0 <= k < s.len() && !whitespace(s[k]) {
        word_end(s, k + 1)
    } else {
        k
    }
}

/// The whitespace-separated words of `s` from `i`, as `str::split_whitespace`
/// gives them.
pub open spec fn words_from(s: Seq<char>, i: int) -> Seq<Seq<char>>
    decreases s.len() - i,
{
    if i < 0 || i >= s.len() {
        Seq::empty()
    } else if whitespace(s[i]) {
        words_from(s, i + 1)
    } else {
        proof {
            lemma_word_end(s, i);
        }
        seq![s.subrange(i, word_end(s, i))] + words_from(s, word_end(s, i))
    }
}

/// The whitespace-separated words of `s`.
pub open spec fn words(s: Seq<char>) -> Seq<Seq<char>> {
    words_from(s, 0)
}

/// A word run ends after it starts and within the text.
pub proof fn lemma_word_end(s: Seq<char>, k: int)
    requires
        0 <= k <= s.len(),
    ensures
        k <= word_end(s, k) <= s.len(),
        0 <= k < s.len() && !whitespace(s[k]) ==> k < word_end(s, k),
    decreases s.len() - k,
{
    if k < s.len() && !whitespace(s[k]) {
        lemma_word_end(s, k + 1);
    }
}

/// The whitespace-separated words of `s`, as `str::split_whitespace`
/// gives them.
pub fn split_words(s: &str) -> (r: Vec<Vec<char>>)
    ensures
        r@.map_values(|w: Vec<char>| w@) == words(s@),
{
    let cs = chars_of(s);
    let n = cs.len();
    let mut out: Vec<Vec<char>> = Vec::new();
    let mut i: usize = 0;
    while i < n
        invariant
            cs@ == s@,
            n == cs.len(),
            0 <= i <= n,
            out@.map_values(|w: Vec<char>| w@) + words_from(cs@, i as int) == words(s@),
        decreases n - i,
    {
        if is_whitespace(cs[i]) {
            i = i + 1;
        } else {
            let mut j: usize = i;
            proof {
                lemma_word_end(cs@, i as int);
            }
            while j < n && !is_whitespace(cs[j])
                invariant
                    n == cs.len(),
                    i <= j <= n,
                    word_end(cs@, j as int) == word_end(cs@, i as int),
                decreases n - j,
            {
                j = j + 1;
            }
            let mut w: Vec<char> = Vec::new();
            let mut k: usize = i;
            while k < j
                invariant
                    i <= k <= j,
                    j <= n,
                    n == cs.len(),
                    w@ == cs@.subrange(i as int, k as int),
                decreases j - k,
            {
                w.push(cs[k]);
                k = k + 1;
                assert(cs@.subrange(i as int, k as int) =~= cs@.subrange(i as int, k - 1).push(cs@[k - 1]));
            }
            let ghost before = out@.map_values(|w: Vec<char>| w@);
            out.push(w);
            proof {
                assert(out@.map_values(|w: Vec<char>| w@) =~= before.push(cs@.subrange(i as int, j as int)));
                assert(before.push(cs@.subrange(i as int, j as int)) + words_from(cs@, j as int) =~= before + words_from(cs@, i as int));
            }
            i = j;
        }
    }
    proof {
        assert(out@.map_values(|w: Vec<char>| w@) + Seq::<Seq<char>>::empty() =~= out@.map_values(|w: Vec<char>| w@));
    }
    out
}

} // verus!
