//! Character-level scanning: occurrences of a pattern, offsets of a
//! character, equality of texts.

use vstd::prelude::*;
use vstd::string::*;

verus! {

/// `needle` stands in `hay` at offset `at`.
pub open spec fn occurs_at(hay: Seq<char>, needle: Seq<char>, at: int) -> bool {
    &&& 0 <= at
    &&& at + needle.len() <= hay.len()
    &&& hay.subrange(at, at + needle.len()) == needle
}

/// `needle` stands somewhere in `hay`. The empty text stands in every text.
pub open spec fn contains(hay: Seq<char>, needle: Seq<char>) -> bool {
    exists|at: int| occurs_at(hay, needle, at)
}

/// Offset of the first `c` in `s`, or `s.len()` where `s` holds none.
pub open spec fn offset_of(s: Seq<char>, c: char) -> int
    decreases s.len(),
{
    if s.len() == 0 || s[0] == c {
        0
    } else {
        1 + offset_of(s.drop_first(), c)
    }
}

/// `offset_of` is the one position that no `c` precedes and that either
/// holds `c` or is the end of `s`.
pub proof fn lemma_offset_of(s: Seq<char>, c: char, k: int)
    requires
        0 <= k <= s.len(),
        forall|j: int| 0 <= j < k ==> s[j] != c,
        k == s.len() || s[k] == c,
    ensures
        offset_of(s, c) == k,
    decreases s.len(),
{
    if s.len() == 0 || s[0] == c {
    } else {
        let rest = s.drop_first();
        assert forall|j: int| 0 <= j < k - 1 implies rest[j] != c by {
            assert(rest[j] == s[j + 1]);
        }
        lemma_offset_of(rest, c, k - 1);
    }
}

/// The characters of `s`, one by one.
pub(crate) fn chars_of(s: &str) -> (v: Vec<char>)
    ensures
        v@ == s@,
{
    let mut v: Vec<char> = Vec::new();
    for c in it: s.chars()
        invariant
            it.seq() == s@,
            v@ == s@.take(it.index() as int),
    {
        v.push(c);
        assert(v@ =~= s@.take(it.index() + 1));
    }
    assert(v@ =~= s@);
    v
}

/// Index of the first `c` in `s[from..to]`, or `to` where there is none.
pub(crate) fn find_char(s: &Vec<char>, from: usize, to: usize, c: char) -> (at: usize)
    requires
        from <= to <= s@.len(),
    ensures
        at == from + offset_of(s@.subrange(from as int, to as int), c),
        from <= at <= to,
{
    let mut i: usize = from;
    while i < to && s[i] != c
        invariant
            from <= i <= to <= s@.len(),
            forall|j: int| from <= j < i ==> s@[j] != c,
        decreases to - i,
    {
        i += 1;
    }
    proof {
        let part = s@.subrange(from as int, to as int);
        lemma_offset_of(part, c, i - from);
    }
    i
}

/// Whether `pat` stands in `s` at index `at`.
pub(crate) fn matches_at(s: &Vec<char>, at: usize, pat: &Vec<char>) -> (r: bool)
    requires
        at + pat@.len() <= s@.len(),
    ensures
        r == (s@.subrange(at as int, at + pat@.len()) == pat@),
{
    let n: usize = s.len();
    let m: usize = pat.len();
    let mut k: usize = 0;
    while k < m
        invariant
            m == pat@.len(),
            at + m <= n == s@.len(),
            k <= m,
            forall|j: int| 0 <= j < k ==> s@[at + j] == pat@[j],
        decreases m - k,
    {
        if s[at + k] != pat[k] {
            assert(s@.subrange(at as int, at + m)[k as int] != pat@[k as int]);
            return false;
        }
        k += 1;
    }
    assert(s@.subrange(at as int, at + m) =~= pat@);
    true
}

/// Whether `pat` stands somewhere in `s[from..to]`.
pub(crate) fn occurs_within(s: &Vec<char>, from: usize, to: usize, pat: &Vec<char>) -> (r: bool)
    requires
        from <= to <= s@.len(),
    ensures
        r == contains(s@.subrange(from as int, to as int), pat@),
{
    let m: usize = pat.len();
    let ghost part = s@.subrange(from as int, to as int);
    let mut i: usize = from;
    while to - i >= m
        invariant
            from <= i <= to <= s@.len(),
            m == pat@.len(),
            part == s@.subrange(from as int, to as int),
            forall|at: int| 0 <= at < i - from ==> !occurs_at(part, pat@, at),
        decreases to - i,
    {
        assert(part.subrange(i - from, i - from + m) =~= s@.subrange(i as int, i + m));
        if matches_at(s, i, pat) {
            assert(occurs_at(part, pat@, i - from));
            return true;
        }
        assert(m > 0) by {
            if m == 0 {
                assert(s@.subrange(i as int, i + m) =~= pat@);
            }
        }
        i += 1;
    }
    assert(!contains(part, pat@)) by {
        assert forall|at: int| !occurs_at(part, pat@, at) by {}
    }
    false
}

/// Whether two texts hold the same characters.
pub(crate) fn same_text(a: &Vec<char>, b: &str) -> (r: bool)
    ensures
        r == (a@ == b@),
{
    let other = chars_of(b);
    if a.len() != other.len() {
        return false;
    }
    let r = matches_at(a, 0, &other);
    assert(a@.subrange(0, a@.len() as int) =~= a@);
    r
}

} // verus!
