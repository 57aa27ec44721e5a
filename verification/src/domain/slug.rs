//! Slug generation and uniqueness enforcement.
//!
//! A slug is the lowercase, kebab-case identifier of every entity. The title
//! is lowercased, every run of characters that are not alphanumeric becomes
//! one `-`, boundary dashes are stripped, and the result is cut to at most
//! forty characters, at the last dash inside that limit when there is one.

use vstd::prelude::*;
use crate::text::{
    alnum, chars_of, drop_leading, drop_trailing, is_alphanumeric, is_ascii_char, lowercase,
    push_str, string_of, to_lowercase,
};

verus! {

/// Number of suffixed attempts made after the plain candidate collides.
pub const MAX_RETRIES: u8 = 5;

/// Maximum number of characters in the title part of a generated slug.
pub const MAX_TITLE_LEN: usize = 40;

// ── specification ──────────────────────────────────────────────────────────

/// Replaces each run of non-alphanumeric characters by a single `-`.
pub open spec fn collapse(s: Seq<char>) -> Seq<char>
    decreases s.len(),
{
    if s.len() == 0 {
        seq![]
    } else {
        let prev = collapse(s.drop_last());
        let c = s.last();
        if alnum(c) {
            prev.push(c)
        } else if prev.len() > 0 && prev.last() == '-' {
            prev
        } else {
            prev.push('-')
        }
    }
}

/// Whether `c` is a dash.
pub open spec fn is_dash(c: char) -> bool {
    c == '-'
}

/// The predicate "is a dash", as a function value.
pub open spec fn dash_pred() -> spec_fn(char) -> bool {
    |c: char| is_dash(c)
}

/// `s` without leading and trailing dashes.
pub open spec fn strip_dashes(s: Seq<char>) -> Seq<char> {
    drop_leading(drop_trailing(s, dash_pred()), dash_pred())
}

/// Index of the last dash in `s`, or -1.
pub open spec fn last_dash(s: Seq<char>) -> int
    decreases s.len(),
{
    if s.len() == 0 {
        -1
    } else if s.last() == '-' {
        s.len() - 1
    } else {
        last_dash(s.drop_last())
    }
}

/// The cut applied to an over-long title: at the last dash of the first
/// forty characters when there is one, else at forty characters, then
/// trailing dashes are dropped.
pub open spec fn cut_title(s: Seq<char>) -> Seq<char> {
    if s.len() <= MAX_TITLE_LEN {
        s
    } else {
        let head = s.take(MAX_TITLE_LEN as int);
        let b = if last_dash(head) >= 0 { last_dash(head) } else { MAX_TITLE_LEN as int };
        drop_trailing(s.take(b), dash_pred())
    }
}

/// The dash-separated form of `title` before any length limit.
pub open spec fn kebab(title: Seq<char>) -> Seq<char> {
    strip_dashes(collapse(lowercase(title)))
}

/// The title part of a slug generated from `title`.
pub open spec fn slug_title(title: Seq<char>) -> Seq<char> {
    cut_title(kebab(title))
}

/// The alphabet of collision suffixes.
pub open spec fn suffix_alphabet() -> Seq<char> {
    seq!['a','b','c','d','e','f','g','h','i','j','k','l','m','n','o','p','q','r','s','t','u','v','w','x','y','z','0','1','2','3','4','5','6','7','8','9']
}

/// Whether `c` may appear in a collision suffix.
pub open spec fn is_suffix_char(c: char) -> bool {
    suffix_alphabet().contains(c)
}

/// Whether `s` is `candidate` followed by `-` and four suffix characters.
pub open spec fn is_suffixed(s: Seq<char>, candidate: Seq<char>) -> bool {
    &&& s.len() == candidate.len() + 5
    &&& s.take(candidate.len() as int) == candidate
    &&& s[candidate.len() as int] == '-'
    &&& forall|i: int| candidate.len() + 1 <= i < s.len() ==> is_suffix_char(#[trigger] s[i])
}

/// One step of the linear congruential generator behind the suffixes.
pub open spec fn lcg_step(state: u64) -> u64 {
    state.wrapping_mul(6364136223846793005u64).wrapping_add(1442695040888963407u64)
}

/// The suffix character drawn from a generator state.
pub open spec fn lcg_char(state: u64) -> char {
    suffix_alphabet()[((state >> 33u64) % 36) as int]
}

/// The four-character suffix derived from `seed`.
pub open spec fn suffix_from_seed_spec(seed: u32) -> Seq<char> {
    let s1 = lcg_step(seed as u64);
    let s2 = lcg_step(s1);
    let s3 = lcg_step(s2);
    let s4 = lcg_step(s3);
    seq![lcg_char(s1), lcg_char(s2), lcg_char(s3), lcg_char(s4)]
}

// ── lemmas ─────────────────────────────────────────────────────────────────

proof fn lemma_take_full(s: Seq<char>)
    ensures
        s.take(s.len() as int) == s,
{
    assert(s.take(s.len() as int) =~= s);
}

proof fn lemma_last_dash_take(s: Seq<char>, i: int)
    requires
        0 <= i < s.len(),
    ensures
        last_dash(s.take(i + 1)) == if s[i] == '-' { i } else { last_dash(s.take(i)) },
{
    assert(s.take(i + 1).drop_last() =~= s.take(i));
}

proof fn lemma_last_dash_range(s: Seq<char>)
    ensures
        -1 <= last_dash(s) < s.len(),
        last_dash(s) >= 0 ==> s[last_dash(s)] == '-',
        forall|j: int| last_dash(s) < j < s.len() ==> s[j] != '-',
    decreases s.len(),
{
    if s.len() > 0 && s.last() != '-' {
        lemma_last_dash_range(s.drop_last());
        assert forall|j: int| last_dash(s) < j < s.len() implies s[j] != '-' by {
            if j < s.len() - 1 {
                assert(s.drop_last()[j] == s[j]);
            }
        }
    }
}

/// Whether `s` is kebab-case: alphanumeric characters and dashes, with no
/// dash at either end and no two dashes in a row.
pub open spec fn is_kebab(s: Seq<char>) -> bool {
    &&& forall|i: int| 0 <= i < s.len() ==> alnum(#[trigger] s[i]) || s[i] == '-'
    &&& forall|i: int| 0 <= i < s.len() - 1 ==> !(#[trigger] s[i] == '-' && s[i + 1] == '-')
    &&& s.len() > 0 ==> s[0] != '-' && s.last() != '-'
}

/// Alphanumeric characters and dashes with no two dashes in a row.
pub open spec fn dash_separated(s: Seq<char>) -> bool {
    &&& forall|i: int| 0 <= i < s.len() ==> alnum(#[trigger] s[i]) || s[i] == '-'
    &&& forall|i: int| 0 <= i < s.len() - 1 ==> !(#[trigger] s[i] == '-' && s[i + 1] == '-')
}

proof fn lemma_collapse_dash_separated(s: Seq<char>)
    ensures
        dash_separated(collapse(s)),
    decreases s.len(),
{
    if s.len() > 0 {
        lemma_collapse_dash_separated(s.drop_last());
        let prev = collapse(s.drop_last());
        let c = s.last();
        assert(alnum('-') == false) by {
            alnum_dash_fact();
        }
        if alnum(c) {
            let r = prev.push(c);
            assert forall|i: int| 0 <= i < r.len() - 1 implies !(#[trigger] r[i] == '-' && r[i + 1] == '-') by {
                if i + 1 == r.len() - 1 {
                    assert(r[i + 1] == c);
                } else {
                    assert(r[i] == prev[i] && r[i + 1] == prev[i + 1]);
                }
            }
            assert forall|i: int| 0 <= i < r.len() implies alnum(#[trigger] r[i]) || r[i] == '-' by {
                if i < prev.len() {
                    assert(r[i] == prev[i]);
                }
            }
        } else if !(prev.len() > 0 && prev.last() == '-') {
            let r = prev.push('-');
            assert forall|i: int| 0 <= i < r.len() - 1 implies !(#[trigger] r[i] == '-' && r[i + 1] == '-') by {
                if i + 1 == r.len() - 1 {
                    assert(r[i] == prev.last());
                } else {
                    assert(r[i] == prev[i] && r[i + 1] == prev[i + 1]);
                }
            }
            assert forall|i: int| 0 <= i < r.len() implies alnum(#[trigger] r[i]) || r[i] == '-' by {
                if i < prev.len() {
                    assert(r[i] == prev[i]);
                }
            }
        }
    }
}

/// The fact about `char::is_alphanumeric` that slugs rely on: a dash is not
/// alphanumeric.
proof fn alnum_dash_fact()
    ensures
        !alnum('-'),
{
    assert(is_ascii_char('-'));
}

proof fn lemma_dash_separated_subrange(s: Seq<char>, a: int, b: int)
    requires
        dash_separated(s),
        0 <= a <= b <= s.len(),
    ensures
        dash_separated(s.subrange(a, b)),
{
    let t = s.subrange(a, b);
    assert forall|i: int| 0 <= i < t.len() - 1 implies !(#[trigger] t[i] == '-' && t[i + 1] == '-') by {
        assert(t[i] == s[a + i] && t[i + 1] == s[a + i + 1]);
    }
    assert forall|i: int| 0 <= i < t.len() implies alnum(#[trigger] t[i]) || t[i] == '-' by {
        assert(t[i] == s[a + i]);
    }
}

proof fn lemma_strip_kebab(s: Seq<char>)
    requires
        dash_separated(s),
    ensures
        is_kebab(strip_dashes(s)),
        exists|a: int, b: int| 0 <= a <= b <= s.len() && strip_dashes(s) == s.subrange(a, b),
{
    let e = crate::text::lemma_drop_trailing_shape(s, dash_pred());
    let t = drop_trailing(s, dash_pred());
    assert(t == s.subrange(0, e));
    lemma_dash_separated_subrange(s, 0, e);
    let j = crate::text::lemma_drop_leading_shape(t, dash_pred());
    let u = drop_leading(t, dash_pred());
    assert(u == t.subrange(j, t.len() as int));
    assert(u =~= s.subrange(j, e));
    lemma_dash_separated_subrange(s, j, e);
    if u.len() > 0 {
        assert(u.last() == t.last());
    }
}

proof fn lemma_cut_kebab(s: Seq<char>)
    requires
        is_kebab(s),
    ensures
        is_kebab(cut_title(s)),
        cut_title(s).len() <= MAX_TITLE_LEN,
{
    if s.len() > MAX_TITLE_LEN {
        let k = MAX_TITLE_LEN as int;
        let head = s.take(k);
        lemma_last_dash_range(head);
        let b = if last_dash(head) >= 0 { last_dash(head) } else { k };
        assert(0 <= b <= k);
        let e = crate::text::lemma_drop_trailing_shape(s.take(b), dash_pred());
        let r = drop_trailing(s.take(b), dash_pred());
        assert(r =~= s.subrange(0, e));
        lemma_dash_separated_subrange(s, 0, e);
        if r.len() > 0 {
            assert(r[0] == s[0]);
        }
    }
}

/// Every slug title is kebab-case and at most forty characters long: only
/// alphanumeric characters and single dashes, never a dash at either end.
pub proof fn lemma_slug_title_well_formed(title: Seq<char>)
    ensures
        is_kebab(slug_title(title)),
        slug_title(title).len() <= MAX_TITLE_LEN,
{
    let c = collapse(lowercase(title));
    lemma_collapse_dash_separated(lowercase(title));
    lemma_strip_kebab(c);
    lemma_cut_kebab(kebab(title));
}

// ── normalisation ──────────────────────────────────────────────────────────

/// Collapses runs of non-alphanumeric characters to one `-`.
fn collapse_chars(cs: &Vec<char>) -> (out: Vec<char>)
    ensures
        out@ == collapse(cs@),
{
    let mut out: Vec<char> = Vec::new();
    let mut last_was_dash = false;
    let mut i: usize = 0;
    assert(cs@.take(0) =~= Seq::<char>::empty());
    while i < cs.len()
        invariant
            0 <= i <= cs.len(),
            out@ == collapse(cs@.take(i as int)),
            last_was_dash == (out@.len() > 0 && out@.last() == '-'),
        decreases cs.len() - i,
    {
        let ch = cs[i];
        proof {
            assert(cs@.take(i + 1).drop_last() =~= cs@.take(i as int));
            assert(cs@.take(i + 1).last() == ch);
        }
        if is_alphanumeric(ch) {
            assert(is_ascii_char('-'));
            out.push(ch);
            last_was_dash = false;
        } else if !last_was_dash {
            out.push('-');
            last_was_dash = true;
        }
        i = i + 1;
    }
    proof {
        lemma_take_full(cs@);
    }
    out
}

/// Removes leading and trailing dashes.
fn strip_dash_chars(s: &Vec<char>) -> (out: Vec<char>)
    ensures
        out@ == strip_dashes(s@),
{
        let mut end: usize = s.len();
    proof {
        lemma_take_full(s@);
    }
    while end > 0 && s[end - 1] == '-'
        invariant
            0 <= end <= s.len(),
            drop_trailing(s@, dash_pred()) == drop_trailing(s@.take(end as int), dash_pred()),
        decreases end,
    {
        proof {
            let t = s@.take(end as int);
            assert(t.drop_last() =~= s@.take(end - 1));
        }
        end = end - 1;
    }
    proof {
        let t = s@.take(end as int);
        if t.len() > 0 {
            assert(t.last() == s@[end - 1]);
        }
        assert(drop_trailing(t, dash_pred()) == t);
    }
    let mut start: usize = 0;
    while start < end && s[start] == '-'
        invariant
            0 <= start <= end <= s.len(),
            drop_leading(s@.take(end as int), dash_pred()) == drop_leading(s@.subrange(start as int, end as int), dash_pred()),
        decreases end - start,
    {
        proof {
            let t = s@.subrange(start as int, end as int);
            assert(t.drop_first() =~= s@.subrange(start + 1, end as int));
            assert(t[0] == s@[start as int]);
        }
        start = start + 1;
    }
    proof {
        assert(s@.take(end as int) =~= s@.subrange(0, end as int));
        let t = s@.subrange(start as int, end as int);
        if t.len() > 0 {
            assert(t[0] == s@[start as int]);
        }
        assert(drop_leading(t, dash_pred()) == t);
    }
    let mut out: Vec<char> = Vec::new();
    let mut i: usize = start;
    while i < end
        invariant
            start <= i <= end <= s.len(),
            out@ == s@.subrange(start as int, i as int),
        decreases end - i,
    {
        out.push(s[i]);
        i = i + 1;
        assert(s@.subrange(start as int, i as int) =~= s@.subrange(start as int, i - 1).push(s@[i - 1]));
    }
    out
}

/// Removes trailing dashes of the first `b` characters of `s`.
fn take_without_trailing_dashes(s: &Vec<char>, b: usize) -> (out: Vec<char>)
    requires
        b <= s.len(),
    ensures
        out@ == drop_trailing(s@.take(b as int), dash_pred()),
{
        let mut end: usize = b;
    while end > 0 && s[end - 1] == '-'
        invariant
            0 <= end <= b <= s.len(),
            drop_trailing(s@.take(b as int), dash_pred()) == drop_trailing(s@.take(end as int), dash_pred()),
        decreases end,
    {
        proof {
            let t = s@.take(end as int);
            assert(t.drop_last() =~= s@.take(end - 1));
        }
        end = end - 1;
    }
    proof {
        let t = s@.take(end as int);
        if t.len() > 0 {
            assert(t.last() == s@[end - 1]);
        }
        assert(drop_trailing(t, dash_pred()) == t);
    }
    let mut out: Vec<char> = Vec::new();
    let mut i: usize = 0;
    while i < end
        invariant
            0 <= i <= end <= s.len(),
            out@ == s@.take(i as int),
        decreases end - i,
    {
        out.push(s[i]);
        i = i + 1;
        assert(s@.take(i as int) =~= s@.take(i - 1).push(s@[i - 1]));
    }
    out
}

/// Cuts `s` to the slug length limit of forty characters.
fn cut_chars(s: &Vec<char>) -> (r: Vec<char>)
    ensures
        r@ == cut_title(s@),
{
    if s.len() <= MAX_TITLE_LEN {
        return s.clone();
    }
    let k: usize = MAX_TITLE_LEN;
    let mut j: usize = k;
    while j > 0 && s[j - 1] != '-'
        invariant
            0 <= j <= k < s.len(),
            k == MAX_TITLE_LEN,
            last_dash(s@.take(k as int)) == last_dash(s@.take(j as int)),
        decreases j,
    {
        proof {
            lemma_last_dash_take(s@, j - 1);
        }
        j = j - 1;
    }
    let b: usize = if j > 0 {
        proof {
            lemma_last_dash_take(s@, j - 1);
        }
        j - 1
    } else {
        assert(s@.take(0) =~= Seq::<char>::empty());
        k
    };
    take_without_trailing_dashes(s, b)
}

/// The title part of a slug: lowercased, dash-separated, cut to forty
/// characters.
fn normalise(input: &str) -> (r: Vec<char>)
    ensures
        r@ == slug_title(input@),
{
    let lower = to_lowercase(input);
    let cs = chars_of(lower.as_str());
    let collapsed = collapse_chars(&cs);
    let stripped = strip_dash_chars(&collapsed);
    cut_chars(&stripped)
}

// ── public API ─────────────────────────────────────────────────────────────

/// Generates a slug from `prefix` and `title`: the prefix followed by the
/// lowercased, dash-separated title cut to forty characters.
///
/// Uniqueness is not checked here; see [`ensure_unique`].
pub fn generate(prefix: &str, title: &str) -> (s: String)
    ensures
        s@ == prefix@ + slug_title(title@),
{
    let t = normalise(title);
    let mut out: Vec<char> = Vec::new();
    push_str(&mut out, prefix);
    let mut i: usize = 0;
    let ghost base = out@;
    while i < t.len()
        invariant
            0 <= i <= t.len(),
            out@ == base + t@.take(i as int),
        decreases t.len() - i,
    {
        out.push(t[i]);
        i = i + 1;
        assert(t@.take(i as int) =~= t@.take(i - 1).push(t@[i - 1]));
    }
    assert(t@.take(t.len() as int) =~= t@);
    string_of(&out)
}


// ── collision handling ─────────────────────────────────────────────────────

/// What went wrong when a slug could not be made unique.
#[derive(Debug, Clone, PartialEq, Eq)]
pub enum SlugErrorKind {
    /// Every attempt produced a collision.
    CollisionLimit {
        /// The candidate slug that kept colliding.
        candidate: String,
        /// Number of suffixed attempts made.
        attempts: u8,
    },
}

/// Errors that can arise during slug generation.
#[derive(Debug, Clone, PartialEq, Eq)]
pub struct SlugError {
    /// The failure mode.
    pub kind: SlugErrorKind,
}

/// The message of a collision-limit error.
pub open spec fn collision_message(candidate: Seq<char>, attempts: nat) -> Seq<char> {
    "slug '"@ + candidate + "' collided on all "@ + crate::text::decimal(attempts)
        + " attempts; the namespace may be exhausted"@
}

impl SlugError {
    /// Returns `true` when the error is a collision-limit failure.
    pub fn is_collision_limit(&self) -> (r: bool)
        ensures
            r == (self.kind is CollisionLimit),
    {
        match self.kind {
            SlugErrorKind::CollisionLimit { .. } => true,
        }
    }

    /// The human-readable description of the error.
    pub fn to_string(&self) -> (r: String)
        ensures
            match self.kind {
                SlugErrorKind::CollisionLimit { candidate, attempts } =>
                    r@ == collision_message(candidate@, attempts as nat),
            },
    {
        match &self.kind {
            SlugErrorKind::CollisionLimit { candidate, attempts } => {
                let mut out: Vec<char> = Vec::new();
                push_str(&mut out, "slug '");
                push_str(&mut out, candidate.as_str());
                push_str(&mut out, "' collided on all ");
                crate::text::push_decimal(&mut out, *attempts as u64);
                push_str(&mut out, " attempts; the namespace may be exhausted");
                assert(out@ =~= collision_message(candidate@, *attempts as nat));
                string_of(&out)
            }
        }
    }
}

/// The four-character suffix that the generator derives from `seed`.
pub fn suffix_from_seed(seed: u32) -> (v: Vec<char>)
    ensures
        v@ == suffix_from_seed_spec(seed),
{
    let alphabet: Vec<char> = vec!['a','b','c','d','e','f','g','h','i','j','k','l','m','n','o','p','q','r','s','t','u','v','w','x','y','z','0','1','2','3','4','5','6','7','8','9'];
    assert(alphabet@ =~= suffix_alphabet());
    let mut state: u64 = seed as u64;
    let mut out: Vec<char> = Vec::new();
    let ghost s1 = lcg_step(seed as u64);
    let ghost s2 = lcg_step(s1);
    let ghost s3 = lcg_step(s2);
    let ghost s4 = lcg_step(s3);
    state = state.wrapping_mul(6364136223846793005u64).wrapping_add(1442695040888963407u64);
    assert(state == s1);
    out.push(alphabet[((state >> 33u64) % 36) as usize]);
    state = state.wrapping_mul(6364136223846793005u64).wrapping_add(1442695040888963407u64);
    assert(state == s2);
    out.push(alphabet[((state >> 33u64) % 36) as usize]);
    state = state.wrapping_mul(6364136223846793005u64).wrapping_add(1442695040888963407u64);
    assert(state == s3);
    out.push(alphabet[((state >> 33u64) % 36) as usize]);
    state = state.wrapping_mul(6364136223846793005u64).wrapping_add(1442695040888963407u64);
    assert(state == s4);
    out.push(alphabet[((state >> 33u64) % 36) as usize]);
    assert(out@ =~= suffix_from_seed_spec(seed));
    out
}

proof fn lemma_suffix_chars(seed: u32)
    ensures
        suffix_from_seed_spec(seed).len() == 4,
        forall|i: int| 0 <= i < 4 ==> is_suffix_char(#[trigger] suffix_from_seed_spec(seed)[i]),
{
    let v = suffix_from_seed_spec(seed);
    assert forall|i: int| 0 <= i < 4 implies is_suffix_char(#[trigger] v[i]) by {
        let s1 = lcg_step(seed as u64);
        let s2 = lcg_step(s1);
        let s3 = lcg_step(s2);
        let s4 = lcg_step(s3);
        let st = if i == 0 { s1 } else if i == 1 { s2 } else if i == 2 { s3 } else { s4 };
        let idx = ((st >> 33u64) % 36) as int;
        assert(0 <= idx < 36);
        assert(v[i] == suffix_alphabet()[idx]);
        assert(suffix_alphabet().contains(v[i]));
    }
}

/// A fresh four-character suffix drawn from the clock.
fn random_suffix() -> (v: Vec<char>)
    ensures
        v@.len() == 4,
        forall|i: int| 0 <= i < 4 ==> is_suffix_char(#[trigger] v@[i]),
{
    let seed = crate::clock::clock_seed();
    proof {
        lemma_suffix_chars(seed);
    }
    suffix_from_seed(seed)
}

/// Whether `f` reported `b` for some string whose characters are `s`.
pub open spec fn reported<F: Fn(&str) -> bool>(f: F, s: Seq<char>, b: bool) -> bool {
    exists|x: &str| x@ == s && #[trigger] f.ensures((x,), b)
}

/// `MAX_RETRIES` suffixed forms of `candidate` that `f` reported taken.
pub open spec fn suffixes_reported_taken<F: Fn(&str) -> bool>(f: F, candidate: Seq<char>) -> bool {
    exists|tried: Seq<Seq<char>>|
        tried.len() == MAX_RETRIES && forall|i: int|
            0 <= i < tried.len() ==> is_suffixed(#[trigger] tried[i], candidate) && reported(f, tried[i], true)
}

/// Ensures `candidate` is unique by appending `-` and a random suffix on
/// collision.
///
/// `is_taken` tells whether a slug is already taken. The candidate itself is
/// tried first; then up to five suffixed forms, and the first one reported
/// free is the result. When the candidate and all five collide, a
/// collision-limit error naming the candidate is returned.
pub fn ensure_unique<F: Fn(&str) -> bool>(candidate: &str, is_taken: F) -> (r: Result<String, SlugError>)
    requires
        forall|s: &str| #[trigger] is_taken.requires((s,)),
    ensures
        r matches Ok(s) ==> {
            &&& reported(is_taken, s@, false)
            &&& s@ == candidate@ || (is_suffixed(s@, candidate@) && reported(is_taken, candidate@, true))
        },
        r matches Err(e) ==> {
            &&& e.kind == (SlugErrorKind::CollisionLimit {
                candidate: e.kind->candidate,
                attempts: MAX_RETRIES,
            })
            &&& e.kind->candidate@ == candidate@
            &&& reported(is_taken, candidate@, true)
            &&& suffixes_reported_taken(is_taken, candidate@)
        },
        (forall|x: &str, b: bool| #[trigger] is_taken.ensures((x,), b) ==> !b) ==> (r matches Ok(s) && s@ == candidate@),
        (forall|x: &str, b: bool| #[trigger] is_taken.ensures((x,), b) ==> b) ==> r is Err,
{
    if !is_taken(candidate) {
        return Ok(candidate.to_owned());
    }
    let mut attempt: u8 = 1;
    let ghost mut tried: Seq<Seq<char>> = Seq::empty();
    while attempt <= MAX_RETRIES
        invariant
            1 <= attempt <= MAX_RETRIES + 1,
            forall|s: &str| #[trigger] is_taken.requires((s,)),
            reported(is_taken, candidate@, true),
            (forall|x: &str, b: bool| #[trigger] is_taken.ensures((x,), b) ==> !b) ==> false,
            tried.len() == attempt - 1,
            forall|i: int|
                0 <= i < tried.len() ==> is_suffixed(#[trigger] tried[i], candidate@) && reported(
                    is_taken,
                    tried[i],
                    true,
                ),
        decreases MAX_RETRIES + 1 - attempt,
    {
        let suffix = random_suffix();
        let mut buf: Vec<char> = Vec::new();
        push_str(&mut buf, candidate);
        buf.push('-');
        let mut i: usize = 0;
        let ghost base = buf@;
        while i < suffix.len()
            invariant
                0 <= i <= suffix.len(),
                suffix@.len() == 4,
                buf@ == base + suffix@.take(i as int),
            decreases suffix.len() - i,
        {
            buf.push(suffix[i]);
            i = i + 1;
            assert(suffix@.take(i as int) =~= suffix@.take(i - 1).push(suffix@[i - 1]));
        }
        assert(suffix@.take(4) =~= suffix@);
        let with_suffix = string_of(&buf);
        let taken = is_taken(with_suffix.as_str());
        proof {
            let s = with_suffix@;
            assert(s.take(candidate@.len() as int) =~= candidate@);
            assert(s[candidate@.len() as int] == '-');
            assert forall|k: int| candidate@.len() + 1 <= k < s.len() implies is_suffix_char(#[trigger] s[k]) by {
                assert(s[k] == suffix@[k - candidate@.len() - 1]);
            }
            assert(is_suffixed(s, candidate@));
            assert(reported(is_taken, s, taken));
        }
        if !taken {
            return Ok(with_suffix);
        }
        proof {
            let old_tried = tried;
            tried = tried.push(with_suffix@);
            assert forall|i: int| 0 <= i < tried.len() implies is_suffixed(#[trigger] tried[i], candidate@) && reported(
                is_taken,
                tried[i],
                true,
            ) by {
                if i < old_tried.len() {
                    assert(tried[i] == old_tried[i]);
                }
            }
        }
        attempt = attempt + 1;
    }
    assert(suffixes_reported_taken(is_taken, candidate@)) by {
        assert(tried.len() == MAX_RETRIES);
    }
    Err(SlugError {
        kind: SlugErrorKind::CollisionLimit { candidate: candidate.to_owned(), attempts: MAX_RETRIES },
    })
}

} // verus!
