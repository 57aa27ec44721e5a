//! Parsing Obsidian-style `[[slug]]` links out of markdown.
//!
//! A link is `[[`, an ASCII letter or digit, any run of ASCII letters,
//! digits and `-`, then `]]`. Text is scanned left to right; after a link
//! the scan resumes just past its closing brackets.

use vstd::prelude::*;
use crate::text::{chars_eq, chars_of, string_of};

verus! {

/// An ASCII letter or digit.
pub open spec fn link_head_char(c: char) -> bool {
    ('a' <= c <= 'z') || ('A' <= c <= 'Z') || ('0' <= c <= '9')
}

/// A character that may continue a link slug.
pub open spec fn link_char(c: char) -> bool {
    link_head_char(c) || c == '-'
}

/// The end of the run of link characters starting at `k`.
pub open spec fn run_end(s: Seq<char>, k: int) -> int
    decreases s.len() - k,
{
    if 0 <= k < s.len() && link_char(s[k]) {
        run_end(s, k + 1)
    } else {
        k
    }
}

/// A link starts at `i`; its slug spans `[i + 2, run_end(s, i + 2))`.
pub open spec fn link_at(s: Seq<char>, i: int) -> bool {
    &&& 0 <= i
    &&& i + 2 < s.len()
    &&& s[i] == '[' && s[i + 1] == '['
    &&& link_head_char(s[i + 2])
    &&& run_end(s, i + 2) + 1 < s.len()
    &&& s[run_end(s, i + 2)] == ']'
    &&& s[run_end(s, i + 2) + 1] == ']'
}

/// Every link slug found scanning `s` from `i`, in order, repeats included.
pub open spec fn links_from(s: Seq<char>, i: int) -> Seq<Seq<char>>
    decreases s.len() - i,
{
    if i < 0 || i >= s.len() {
        Seq::empty()
    } else if link_at(s, i) {
        proof {
            lemma_run_end(s, i + 2);
        }
        seq![s.subrange(i + 2, run_end(s, i + 2))] + links_from(s, run_end(s, i + 2) + 2)
    } else {
        links_from(s, i + 1)
    }
}

/// The sequence without repeats, keeping first occurrences in order.
pub open spec fn first_occurrences(v: Seq<Seq<char>>) -> Seq<Seq<char>>
    decreases v.len(),
{
    if v.len() == 0 {
        v
    } else {
        let d = first_occurrences(v.drop_last());
        if d.contains(v.last()) {
            d
        } else {
            d.push(v.last())
        }
    }
}

/// The distinct link slugs of `s`, in the order they first appear.
pub open spec fn link_slugs(s: Seq<char>) -> Seq<Seq<char>> {
    first_occurrences(links_from(s, 0))
}

/// The run of link characters ends at or after its start, and every
/// character before its end is a link character.
pub proof fn lemma_run_end(s: Seq<char>, k: int)
    requires
        0 <= k <= s.len(),
    ensures
        k <= run_end(s, k) <= s.len(),
        forall|m: int| k <= m < run_end(s, k) ==> link_char(#[trigger] s[m]),
        run_end(s, k) < s.len() ==> !link_char(s[run_end(s, k)]),
    decreases s.len() - k,
{
    if k < s.len() && link_char(s[k]) {
        lemma_run_end(s, k + 1);
    }
}

/// `first_occurrences` of a pushed sequence.
proof fn lemma_first_occurrences_push(v: Seq<Seq<char>>, x: Seq<char>)
    ensures
        first_occurrences(v.push(x)) == (if first_occurrences(v).contains(x) {
            first_occurrences(v)
        } else {
            first_occurrences(v).push(x)
        }),
{
    assert(v.push(x).drop_last() =~= v);
}

/// `first_occurrences` never repeats an element.
pub proof fn lemma_first_occurrences_distinct(v: Seq<Seq<char>>)
    ensures
        forall|a: int, b: int|
            0 <= a < b < first_occurrences(v).len() ==> #[trigger] first_occurrences(v)[a]
                != #[trigger] first_occurrences(v)[b],
    decreases v.len(),
{
    if v.len() > 0 {
        lemma_first_occurrences_distinct(v.drop_last());
        let d = first_occurrences(v.drop_last());
        if !d.contains(v.last()) {
            let e = d.push(v.last());
            assert forall|a: int, b: int| 0 <= a < b < e.len() implies #[trigger] e[a] != #[trigger] e[b] by {
                if b == d.len() {
                    assert(e[a] == d[a]);
                    assert(!d.contains(v.last()));
                } else {
                    assert(e[a] == d[a] && e[b] == d[b]);
                }
            }
        }
    }
}

/// Whether the characters `v` occur among the strings of `found`.
fn found_contains(found: &Vec<String>, v: &Vec<char>) -> (r: bool)
    ensures
        r == found@.map_values(|x: String| x@).contains(v@),
{
    let ghost views = found@.map_values(|x: String| x@);
    let mut i: usize = 0;
    while i < found.len()
        invariant
            0 <= i <= found.len(),
            views == found@.map_values(|x: String| x@),
            forall|j: int| 0 <= j < i ==> views[j] != v@,
        decreases found.len() - i,
    {
        let cs = chars_of(found[i].as_str());
        if chars_eq(&cs, v) {
            assert(views[i as int] == v@);
            return true;
        }
        i = i + 1;
    }
    false
}

/// The distinct `[[slug]]` link targets of `content`, in the order they
/// first appear.
pub fn parse_links(content: &str) -> (r: Vec<String>)
    ensures
        r@.map_values(|x: String| x@) == link_slugs(content@),
{
    let s = chars_of(content);
    let n = s.len();
    let mut out: Vec<String> = Vec::new();
    let mut i: usize = 0;
    let ghost mut seen: Seq<Seq<char>> = Seq::empty();
    while i < n
        invariant
            s@ == content@,
            n == s.len(),
            0 <= i <= n + 1,
            seen + links_from(s@, i as int) == links_from(s@, 0),
            out@.map_values(|x: String| x@) == first_occurrences(seen),
        decreases n + 1 - i,
    {
        let mut matched = false;
        if i < n && n - i > 2 && s[i] == '[' && s[i + 1] == '[' {
            let c = s[i + 2];
            if ('a' <= c && c <= 'z') || ('A' <= c && c <= 'Z') || ('0' <= c && c <= '9') {
                let mut j: usize = i + 2;
                proof {
                    lemma_run_end(s@, i + 2);
                }
                while j < n && (('a' <= s[j] && s[j] <= 'z') || ('A' <= s[j] && s[j] <= 'Z') || (
                '0' <= s[j] && s[j] <= '9') || s[j] == '-')
                    invariant
                        n == s.len(),
                        i + 2 <= j <= n,
                        run_end(s@, j as int) == run_end(s@, i + 2),
                    decreases n - j,
                {
                    j = j + 1;
                }
                if j < n && n - j > 1 && s[j] == ']' && s[j + 1] == ']' {
                    let mut slug: Vec<char> = Vec::new();
                    let mut k: usize = i + 2;
                    while k < j
                        invariant
                            i + 2 <= k <= j,
                            j <= n,
                            n == s.len(),
                            slug@ == s@.subrange(i + 2, k as int),
                        decreases j - k,
                    {
                        slug.push(s[k]);
                        k = k + 1;
                        assert(s@.subrange(i + 2, k as int) =~= s@.subrange(i + 2, k - 1).push(s@[k - 1]));
                    }
                    let ghost l = slug@;
                    proof {
                        assert(link_at(s@, i as int));
                        lemma_first_occurrences_push(seen, l);
                        assert(seen.push(l) + links_from(s@, j + 2) =~= seen + links_from(s@, i as int));
                    }
                    if !found_contains(&out, &slug) {
                        let t = string_of(&slug);
                        out.push(t);
                        proof {
                            assert(out@.map_values(|x: String| x@) =~= first_occurrences(seen).push(l));
                        }
                    }
                    proof {
                        seen = seen.push(l);
                    }
                    i = j + 2;
                    matched = true;
                }
            }
        }
        if !matched {
            proof {
                if i + 2 < n && s@[i as int] == '[' && s@[i + 1] == '[' && link_head_char(s@[i + 2]) {
                    lemma_run_end(s@, i + 2);
                }
                assert(!link_at(s@, i as int));
            }
            i = i + 1;
        }
    }
    proof {
        assert(links_from(s@, i as int) =~= Seq::<Seq<char>>::empty());
        assert(seen + Seq::<Seq<char>>::empty() =~= seen);
    }
    out
}

} // verus!
