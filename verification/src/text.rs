//! Character-level helpers on strings: reading the characters of a string,
//! appending characters, and searching for a fragment.

use vstd::prelude::*;

verus! {

/// `String::push` appends one character at the end of the string.
pub assume_specification[ String::push ](string: &mut String, ch: char)
    ensures
        final(string)@ == old(string)@.push(ch),
;

/// The characters of `s`, in order.
pub fn chars_of(s: &str) -> (v: Vec<char>)
    ensures
        v@ == s@,
{
    let n = s.unicode_len();
    let mut v: Vec<char> = Vec::new();
    let mut i: usize = 0;
    while i < n
        invariant
            n == s@.len(),
            i <= n,
            v@ == s@.take(i as int),
        decreases n - i,
    {
        let c = s.get_char(i);
        v.push(c);
        assert(s@.take(i as int + 1) =~= s@.take(i as int).push(c));
        i = i + 1;
    }
    assert(s@.take(n as int) =~= s@);
    v
}

/// `needle` occurs in `hay` starting at position `at`.
pub open spec fn occurs_at(hay: Seq<char>, needle: Seq<char>, at: int) -> bool {
    0 <= at && at + needle.len() <= hay.len() && hay.subrange(at, at + needle.len()) == needle
}

/// `needle` occurs somewhere in `hay`.
pub open spec fn contains_text(hay: Seq<char>, needle: Seq<char>) -> bool {
    exists|at: int| occurs_at(hay, needle, at)
}

fn matches_at(hay: &Vec<char>, needle: &Vec<char>, at: usize) -> (b: bool)
    requires
        at + needle@.len() <= hay@.len(),
    ensures
        b == occurs_at(hay@, needle@, at as int),
{
    let m = needle.len();
    let mut k: usize = 0;
    while k < m
        invariant
            m == needle@.len(),
            at + m <= hay.len(),
            k <= m,
            forall|j: int| 0 <= j < k ==> hay@[at + j] == needle@[j],
        decreases m - k,
    {
        if hay[at + k] != needle[k] {
            assert(hay@.subrange(at as int, at + m)[k as int] != needle@[k as int]);
            return false;
        }
        k = k + 1;
    }
    assert(hay@.subrange(at as int, at + m) =~= needle@);
    true
}

/// Whether `needle` occurs in `hay`.
pub fn contains(hay: &str, needle: &str) -> (b: bool)
    ensures
        b == contains_text(hay@, needle@),
{
    let h = chars_of(hay);
    let nd = chars_of(needle);
    if nd.len() > h.len() {
        assert forall|at: int| !occurs_at(hay@, needle@, at) by {}
        return false;
    }
    let last = h.len() - nd.len();
    let mut at: usize = 0;
    loop
        invariant
            h@ == hay@,
            nd@ == needle@,
            last + nd@.len() == h@.len(),
            at <= last,
            forall|p: int| 0 <= p < at ==> !occurs_at(hay@, needle@, p),
        decreases last - at,
    {
        if matches_at(&h, &nd, at) {
            return true;
        }
        if at == last {
            assert forall|p: int| !occurs_at(hay@, needle@, p) by {
                if 0 <= p < at {
                }
            }
            return false;
        }
        at = at + 1;
    }
}


/// The characters that `char::is_whitespace` accepts: those with the
/// Unicode property White_Space.
pub open spec fn is_white_space(c: char) -> bool {
    ||| '\u{9}' <= c <= '\u{d}'
    ||| c == ' '
    ||| c == '\u{85}'
    ||| c == '\u{a0}'
    ||| c == '\u{1680}'
    ||| '\u{2000}' <= c <= '\u{200a}'
    ||| c == '\u{2028}'
    ||| c == '\u{2029}'
    ||| c == '\u{202f}'
    ||| c == '\u{205f}'
    ||| c == '\u{3000}'
}

/// Which characters a trim removes.
#[derive(Clone, Copy, PartialEq, Eq, Structural, Debug)]
pub enum TrimKind {
    /// White space, as `str::trim` removes it.
    WhiteSpace,
    /// Double quotes, as `str::trim_matches('"')` removes them.
    Quote,
}

pub open spec fn trims(kind: TrimKind, c: char) -> bool {
    match kind {
        TrimKind::WhiteSpace => is_white_space(c),
        TrimKind::Quote => c == '"',
    }
}

pub open spec fn strip_leading(s: Seq<char>, kind: TrimKind) -> Seq<char>
    decreases s.len(),
{
    if s.len() > 0 && trims(kind, s[0]) {
        strip_leading(s.drop_first(), kind)
    } else {
        s
    }
}

pub open spec fn strip_trailing(s: Seq<char>, kind: TrimKind) -> Seq<char>
    decreases s.len(),
{
    if s.len() > 0 && trims(kind, s.last()) {
        strip_trailing(s.drop_last(), kind)
    } else {
        s
    }
}

/// `s` with every leading and trailing character of the kind removed.
pub open spec fn trimmed(s: Seq<char>, kind: TrimKind) -> Seq<char> {
    strip_trailing(strip_leading(s, kind), kind)
}

fn is_trimmed_char(kind: TrimKind, c: char) -> (b: bool)
    ensures
        b == trims(kind, c),
{
    match kind {
        TrimKind::WhiteSpace => {
            ('\u{9}' <= c && c <= '\u{d}') || c == ' ' || c == '\u{85}' || c == '\u{a0}'
                || c == '\u{1680}' || ('\u{2000}' <= c && c <= '\u{200a}') || c == '\u{2028}'
                || c == '\u{2029}' || c == '\u{202f}' || c == '\u{205f}' || c == '\u{3000}'
        },
        TrimKind::Quote => c == '"',
    }
}

proof fn lemma_strip_leading(s: Seq<char>, kind: TrimKind, i: int)
    requires
        0 <= i <= s.len(),
        forall|k: int| 0 <= k < i ==> trims(kind, #[trigger] s[k]),
        i == s.len() || !trims(kind, s[i]),
    ensures
        strip_leading(s, kind) == s.skip(i),
    decreases i,
{
    if i == 0 {
        assert(s.skip(0) =~= s);
    } else {
        lemma_strip_leading(s.drop_first(), kind, i - 1);
        assert(s.drop_first().skip(i - 1) =~= s.skip(i));
    }
}

proof fn lemma_strip_trailing(s: Seq<char>, kind: TrimKind, j: int)
    requires
        0 <= j <= s.len(),
        forall|k: int| j <= k < s.len() ==> trims(kind, #[trigger] s[k]),
        j == 0 || !trims(kind, s[j - 1]),
    ensures
        strip_trailing(s, kind) == s.take(j),
    decreases s.len() - j,
{
    if j == s.len() {
        assert(s.take(j) =~= s);
    } else {
        lemma_strip_trailing(s.drop_last(), kind, j);
        assert(s.drop_last().take(j) =~= s.take(j));
    }
}

/// The characters `v[from..to]` as a string.
pub fn collect_range(v: &Vec<char>, from: usize, to: usize) -> (r: String)
    requires
        from <= to <= v@.len(),
    ensures
        r@ == v@.subrange(from as int, to as int),
{
    let mut r = String::new();
    let mut k = from;
    while k < to
        invariant
            from <= k <= to,
            to <= v@.len(),
            r@ == v@.subrange(from as int, k as int),
        decreases to - k,
    {
        r.push(v[k]);
        assert(v@.subrange(from as int, k + 1) =~= v@.subrange(from as int, k as int).push(v@[k as int]));
        k = k + 1;
    }
    r
}

/// `s` with every leading and trailing character of the kind removed.
pub fn trim_text(s: &str, kind: TrimKind) -> (r: String)
    ensures
        r@ == trimmed(s@, kind),
{
    let v = chars_of(s);
    let n = v.len();
    let mut i: usize = 0;
    while i < n && is_trimmed_char(kind, v[i])
        invariant
            v@ == s@,
            n == v@.len(),
            i <= n,
            forall|k: int| 0 <= k < i ==> trims(kind, #[trigger] s@[k]),
        decreases n - i,
    {
        i = i + 1;
    }
    proof {
        lemma_strip_leading(s@, kind, i as int);
    }
    let mut j: usize = n;
    while j > i && is_trimmed_char(kind, v[j - 1])
        invariant
            v@ == s@,
            n == v@.len(),
            i <= j <= n,
            forall|k: int| j <= k < n ==> trims(kind, #[trigger] s@[k]),
        decreases j,
    {
        j = j - 1;
    }
    proof {
        let rest = s@.skip(i as int);
        assert forall|k: int| j - i <= k < rest.len() implies trims(kind, #[trigger] rest[k]) by {
            assert(rest[k] == s@[i + k]);
        }
        if j > i {
            assert(rest[j - i - 1] == s@[j - 1]);
        }
        lemma_strip_trailing(rest, kind, j - i);
        assert(rest.take(j - i) =~= s@.subrange(i as int, j as int));
    }
    collect_range(&v, i, j)
}

} // verus!
