//! Character-level helpers shared by the codec: conversion between `str`
//! and `Vec<char>`, and bounded scans over character sequences.
use vstd::prelude::*;

verus! {

/// First index `i` in `[from, end)` with `s[i] == c`, or `end` if there is none.
pub open spec fn find_in(s: Seq<char>, from: int, end: int, c: char) -> int
    decreases end - from,
{
    if from < 0 || from >= end || from >= s.len() {
        end
    } else if s[from] == c {
        from
    } else {
        find_in(s, from + 1, end, c)
    }
}

pub proof fn lemma_find_in(s: Seq<char>, from: int, end: int, c: char)
    requires
        0 <= from <= end <= s.len(),
    ensures
        from <= find_in(s, from, end, c) <= end,
        find_in(s, from, end, c) < end ==> s[find_in(s, from, end, c)] == c,
        forall|j: int| from <= j < find_in(s, from, end, c) ==> s[j] != c,
    decreases end - from,
{
    if from < end && s[from] != c {
        lemma_find_in(s, from + 1, end, c);
    }
}

/// First index `i >= from` where `s[i] == '\r'` and `s[i + 1] == '\n'`,
/// or `s.len()` if the sequence holds no CRLF pair at or after `from`.
pub open spec fn find_crlf(s: Seq<char>, from: int) -> int
    decreases s.len() - from,
{
    if from < 0 || from + 1 >= s.len() {
        s.len() as int
    } else if s[from] == '\r' && s[from + 1] == '\n' {
        from
    } else {
        find_crlf(s, from + 1)
    }
}

pub proof fn lemma_find_crlf(s: Seq<char>, from: int)
    requires
        0 <= from <= s.len(),
    ensures
        from <= find_crlf(s, from) <= s.len(),
        find_crlf(s, from) < s.len() ==> {
            &&& find_crlf(s, from) + 1 < s.len()
            &&& s[find_crlf(s, from)] == '\r'
            &&& s[find_crlf(s, from) + 1] == '\n'
        },
        forall|j: int|
            from <= j < find_crlf(s, from) && j + 1 < s.len() ==> !(#[trigger] s[j] == '\r' && s[j
                + 1] == '\n'),
    decreases s.len() - from,
{
    if from + 1 < s.len() && !(s[from] == '\r' && s[from + 1] == '\n') {
        lemma_find_crlf(s, from + 1);
    }
}

/// First index `i` in `[from, end)` with `s[i] != ' '`, or `end` if all are spaces.
pub open spec fn skip_spaces(s: Seq<char>, from: int, end: int) -> int
    decreases end - from,
{
    if from < 0 || from >= end || from >= s.len() {
        end
    } else if s[from] == ' ' {
        skip_spaces(s, from + 1, end)
    } else {
        from
    }
}

pub proof fn lemma_skip_spaces(s: Seq<char>, from: int, end: int)
    requires
        0 <= from <= end <= s.len(),
    ensures
        from <= skip_spaces(s, from, end) <= end,
        skip_spaces(s, from, end) < end ==> s[skip_spaces(s, from, end)] != ' ',
        forall|j: int| from <= j < skip_spaces(s, from, end) ==> s[j] == ' ',
    decreases end - from,
{
    if from < end && s[from] == ' ' {
        lemma_skip_spaces(s, from + 1, end);
    }
}

/// The characters of `s`, in order, as a vector.
pub fn str_to_chars(s: &str) -> (r: Vec<char>)
    ensures
        r@ == s@,
{
    let n = s.unicode_len();
    let mut r: Vec<char> = Vec::new();
    let mut i: usize = 0;
    while i < n
        invariant
            i <= n,
            r@ == s@.subrange(0, i as int),
        decreases n - i,
    {
        r.push(s.get_char(i));
        i = i + 1;
    }
    assert(s@.subrange(0, n as int) =~= s@);
    r
}

/// Relies on std's `FromIterator<char>` for `String`: collecting an iterator
/// of characters yields the string made of exactly those characters in order.
#[verifier::external_body]
pub fn chars_to_string(v: &Vec<char>) -> (s: String)
    ensures
        s@ == v@,
{
    v.iter().collect()
}

/// Appends the characters of `s` to `out`.
pub fn push_str_chars(out: &mut Vec<char>, s: &str)
    ensures
        final(out)@ == old(out)@ + s@,
{
    let n = s.unicode_len();
    let mut i: usize = 0;
    while i < n
        invariant
            i <= n,
            out@ == old(out)@ + s@.subrange(0, i as int),
        decreases n - i,
    {
        out.push(s.get_char(i));
        i = i + 1;
    }
    assert(old(out)@ + s@.subrange(0, n as int) =~= old(out)@ + s@);
}

/// Whether the characters of `v` spell exactly `s`.
pub fn chars_eq_str(v: &Vec<char>, s: &str) -> (r: bool)
    ensures
        r <==> v@ == s@,
{
    let n = s.unicode_len();
    if v.len() != n {
        assert(v@ != s@) by {
            assert(v@.len() != s@.len());
        }
        return false;
    }
    let mut i: usize = 0;
    while i < n
        invariant
            i <= n,
            v@.len() == n,
            forall|j: int| 0 <= j < i ==> v@[j] == s@[j],
        decreases n - i,
    {
        if v[i] != s.get_char(i) {
            return false;
        }
        i = i + 1;
    }
    assert(v@ =~= s@);
    true
}

/// First index `i` in `[from, end)` of `s` holding `c`, or `end` if none does.
pub fn find_char(s: &Vec<char>, from: usize, end: usize, c: char) -> (r: usize)
    requires
        from <= end <= s@.len(),
    ensures
        r == find_in(s@, from as int, end as int, c),
        from <= r <= end,
        r < end ==> s@[r as int] == c,
        forall|j: int| from <= j < r ==> s@[j] != c,
{
    proof {
        lemma_find_in(s@, from as int, end as int, c);
    }
    let mut i: usize = from;
    while i < end
        invariant
            from <= i <= end,
            find_in(s@, from as int, end as int, c) == find_in(s@, i as int, end as int, c),
        decreases end - i,
    {
        if s[i] == c {
            return i;
        }
        i = i + 1;
    }
    i
}

/// First index `i` in `[from, end)` of `s` that is not a space, or `end`.
pub fn skip_spaces_exec(s: &Vec<char>, from: usize, end: usize) -> (r: usize)
    requires
        from <= end <= s@.len(),
    ensures
        r == skip_spaces(s@, from as int, end as int),
        from <= r <= end,
{
    proof {
        lemma_skip_spaces(s@, from as int, end as int);
    }
    let mut i: usize = from;
    while i < end
        invariant
            from <= i <= end,
            skip_spaces(s@, from as int, end as int) == skip_spaces(s@, i as int, end as int),
        decreases end - i,
    {
        if s[i] != ' ' {
            return i;
        }
        i = i + 1;
    }
    i
}

/// First index at or after `from` where a CRLF pair starts, or `s.len()`.
pub fn find_crlf_exec(s: &Vec<char>, from: usize) -> (r: usize)
    requires
        from <= s@.len(),
    ensures
        r == find_crlf(s@, from as int),
{
    let n = s.len();
    let mut i: usize = from;
    while n - i > 1
        invariant
            from <= i <= n,
            find_crlf(s@, from as int) == find_crlf(s@, i as int),
        decreases n - i,
    {
        if s[i] == '\r' && s[i + 1] == '\n' {
            return i;
        }
        i = i + 1;
    }
    n
}

/// The characters of `s` in `[from, end)`, as a fresh vector.
pub fn copy_range(s: &Vec<char>, from: usize, end: usize) -> (r: Vec<char>)
    requires
        from <= end <= s@.len(),
    ensures
        r@ == s@.subrange(from as int, end as int),
{
    let mut r: Vec<char> = Vec::new();
    let mut i: usize = from;
    while i < end
        invariant
            from <= i <= end,
            r@ == s@.subrange(from as int, i as int),
        decreases end - i,
    {
        r.push(s[i]);
        assert(r@ =~= s@.subrange(from as int, i + 1 as int));
        i = i + 1;
    }
    r
}

} // verus!
