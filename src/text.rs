use vstd::prelude::*;

verus! {

/// Unicode's `White_Space` property, the set that `char::is_whitespace`
/// and `str::split_whitespace` go by.
pub open spec fn is_space(c: char) -> bool {
    let u = c as u32;
    ||| 0x09 <= u <= 0x0d
    ||| u == 0x20
    ||| u == 0x85
    ||| u == 0xa0
    ||| u == 0x1680
    ||| 0x2000 <= u <= 0x200a
    ||| u == 0x2028
    ||| u == 0x2029
    ||| u == 0x202f
    ||| u == 0x205f
    ||| u == 0x3000
}

/// The first index at or after `i` whose character is a space
/// (when `space`) or is not one (when `!space`); `s.len()` if there is none.
pub open spec fn scan(s: Seq<char>, i: int, space: bool) -> int
    decreases s.len() - i,
{
    if i < 0 || i >= s.len() || is_space(s[i]) == space {
        i
    } else {
        scan(s, i + 1, space)
    }
}

/// The first whitespace-separated word of `s`, if `s` has one.
pub open spec fn first_word(s: Seq<char>) -> Option<Seq<char>> {
    let start = scan(s, 0, false);
    if start >= s.len() {
        None
    } else {
        Some(s.subrange(start, scan(s, start, true)))
    }
}

/// `s` without its leading `p`, if it starts with `p`.
pub open spec fn strip_prefix(s: Seq<char>, p: Seq<char>) -> Option<Seq<char>> {
    if p.is_prefix_of(s) {
        Some(s.skip(p.len() as int))
    } else {
        None
    }
}

/// Whether `c` is whitespace.
pub fn is_whitespace(c: char) -> (r: bool)
    ensures
        r == is_space(c),
{
    let u = c as u32;
    (0x09 <= u && u <= 0x0d) || u == 0x20 || u == 0x85 || u == 0xa0 || u == 0x1680 || (0x2000
        <= u && u <= 0x200a) || u == 0x2028 || u == 0x2029 || u == 0x202f || u == 0x205f || u
        == 0x3000
}

/// Where `end` is the end of `s` or holds a space, the next space from any
/// index with no space between it and `end` is at `end`.
proof fn lemma_scan_to_space(s: Seq<char>, i: int, end: int)
    requires
        0 <= i <= end <= s.len(),
        forall|k: int| i <= k < end ==> !is_space(#[trigger] s[k]),
        end == s.len() || is_space(s[end]),
    ensures
        scan(s, i, true) == end,
    decreases end - i,
{
    if i < end {
        lemma_scan_to_space(s, i + 1, end);
    }
}

/// A word that stands at the start of `s` and ends where `s` ends or a space
/// follows is the first word of `s`.
pub proof fn lemma_first_word_at_start(s: Seq<char>, w: Seq<char>, tail: Seq<char>)
    requires
        s == w + tail,
        w.len() > 0,
        forall|k: int| 0 <= k < w.len() ==> !is_space(#[trigger] w[k]),
        tail.len() == 0 || is_space(tail[0]),
    ensures
        first_word(s) == Some(w),
{
    assert(!is_space(s[0]));
    assert(scan(s, 0, false) == 0);
    lemma_scan_to_space(s, 0, w.len() as int);
    assert(s.subrange(0, w.len() as int) =~= w);
}

/// The first word of `s`, read character by character.
pub fn first_word_of(s: &str) -> (r: Option<&str>)
    ensures
        match r {
            Some(w) => first_word(s@) == Some(w@),
            None => first_word(s@) is None,
        },
{
    let n = s.unicode_len();
    let mut start: usize = 0;
    while start < n && is_whitespace(s.get_char(start))
        invariant
            n == s@.len(),
            start <= n,
            scan(s@, 0, false) == scan(s@, start as int, false),
        decreases n - start,
    {
        start = start + 1;
    }
    if start == n {
        return None;
    }
    let mut end: usize = start;
    while end < n && !is_whitespace(s.get_char(end))
        invariant
            n == s@.len(),
            start <= end <= n,
            scan(s@, start as int, true) == scan(s@, end as int, true),
        decreases n - end,
    {
        end = end + 1;
    }
    Some(s.substring_char(start, end))
}

/// `s` without its leading `p`, compared character by character.
pub fn strip_prefix_of<'a>(s: &'a str, p: &str) -> (r: Option<&'a str>)
    ensures
        match r {
            Some(rest) => strip_prefix(s@, p@) == Some(rest@),
            None => strip_prefix(s@, p@) is None,
        },
{
    let n = s.unicode_len();
    let m = p.unicode_len();
    if n < m {
        return None;
    }
    let mut i: usize = 0;
    while i < m
        invariant
            n == s@.len(),
            m == p@.len(),
            m <= n,
            i <= m,
            forall|k: int| 0 <= k < i ==> s@[k] == p@[k],
        decreases m - i,
    {
        if s.get_char(i) != p.get_char(i) {
            return None;
        }
        i = i + 1;
    }
    assert(p@.is_prefix_of(s@));
    Some(s.substring_char(m, n))
}

} // verus!
