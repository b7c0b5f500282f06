//! Text handling shared by the resolvers: conversion between strings and
//! character sequences, trimming, case folding and searching.

use vstd::prelude::*;
use vstd::string::*;

verus! {

/// Whether `c` has the Unicode `White_Space` property.
pub uninterp spec fn white_space(c: char) -> bool;

/// The lowercase form of `s` under Unicode's default case conversion.
pub uninterp spec fn lowercase(s: Seq<char>) -> Seq<char>;

/// `char::is_whitespace`: tells whether a character has the `White_Space`
/// property. Nothing is claimed about which characters have it.
#[verifier::external_body]
pub(crate) fn is_whitespace(c: char) -> (b: bool)
    ensures
        b == white_space(c),
{
    c.is_whitespace()
}

/// `str::to_lowercase`: the lowercase form of a string. The result is
/// determined by the characters of `s` alone; nothing else is claimed about it.
#[verifier::external_body]
pub(crate) fn to_lowercase(s: &str) -> (lower: String)
    ensures
        lower@ == lowercase(s@),
{
    s.to_lowercase()
}

/// `String::push`: appends one character to the end of a string.
#[verifier::external_body]
pub(crate) fn push_char(s: &mut String, c: char)
    ensures
        final(s)@ == old(s)@.push(c),
{
    s.push(c)
}

/// The characters of `s`, in order.
pub fn chars_of(s: &str) -> (chars: Vec<char>)
    ensures
        chars@ == s@,
{
    let mut chars: Vec<char> = Vec::new();
    for c in it: s.chars()
        invariant
            it.seq() == s@,
            chars@ == s@.take(it.index()),
    {
        chars.push(c);
    }
    chars
}

/// The string made of the characters `chars[from..to]`.
pub fn string_of(chars: &Vec<char>, from: usize, to: usize) -> (s: String)
    requires
        from <= to <= chars.len(),
    ensures
        s@ == chars@.subrange(from as int, to as int),
{
    let mut s = String::new();
    let mut i: usize = from;
    while i < to
        invariant
            from <= i <= to <= chars.len(),
            s@ == chars@.subrange(from as int, i as int),
        decreases to - i,
    {
        push_char(&mut s, chars[i]);
        i += 1;
    }
    s
}

/// `s` without its leading characters that satisfy `strip`.
pub open spec fn strip_start(s: Seq<char>, strip: spec_fn(char) -> bool) -> Seq<char>
    decreases s.len(),
{
    if s.len() > 0 && strip(s.first()) {
        strip_start(s.drop_first(), strip)
    } else {
        s
    }
}

/// `s` without its trailing characters that satisfy `strip`.
pub open spec fn strip_end(s: Seq<char>, strip: spec_fn(char) -> bool) -> Seq<char>
    decreases s.len(),
{
    if s.len() > 0 && strip(s.last()) {
        strip_end(s.drop_last(), strip)
    } else {
        s
    }
}

/// `s` without leading and trailing white space.
pub open spec fn trimmed(s: Seq<char>) -> Seq<char> {
    strip_end(strip_start(s, |c: char| white_space(c)), |c: char| white_space(c))
}

/// `s` without leading and trailing double quotes.
pub open spec fn unquoted(s: Seq<char>) -> Seq<char> {
    strip_end(strip_start(s, |c: char| c == '"'), |c: char| c == '"')
}

/// Which characters a stripping pass removes.
#[derive(Clone, Copy, PartialEq, Eq, Structural)]
pub enum Strip {
    /// Characters with the `White_Space` property.
    WhiteSpace,
    /// The double quote.
    Quote,
}

impl Strip {
    /// The predicate that this class of characters stands for.
    pub open spec fn pred(self) -> spec_fn(char) -> bool {
        match self {
            Strip::WhiteSpace => |c: char| white_space(c),
            Strip::Quote => |c: char| c == '"',
        }
    }

    /// Whether `c` belongs to this class.
    pub fn removes(self, c: char) -> (b: bool)
        ensures
            b == (self.pred())(c),
    {
        match self {
            Strip::WhiteSpace => is_whitespace(c),
            Strip::Quote => c == '"',
        }
    }
}

/// The bounds `(from, to)` of what is left of `chars[from..to]` after the characters
/// of class `strip` are removed from both of its ends.
pub fn strip_bounds(chars: &Vec<char>, from: usize, to: usize, strip: Strip) -> (bounds: (usize, usize))
    requires
        from <= to <= chars.len(),
    ensures
        from <= bounds.0 <= bounds.1 <= to,
        chars@.subrange(bounds.0 as int, bounds.1 as int) == strip_end(
            strip_start(chars@.subrange(from as int, to as int), strip.pred()),
            strip.pred(),
        ),
{
    let mut a: usize = from;
    while a < to && strip.removes(chars[a])
        invariant
            from <= a <= to <= chars.len(),
            strip_start(chars@.subrange(from as int, to as int), strip.pred()) == strip_start(
                chars@.subrange(a as int, to as int),
                strip.pred(),
            ),
        decreases to - a,
    {
        proof {
            let cur = chars@.subrange(a as int, to as int);
            assert(cur.drop_first() == chars@.subrange(a + 1, to as int));
        }
        a += 1;
    }
    let mut b: usize = to;
    while a < b && strip.removes(chars[b - 1])
        invariant
            a <= b <= to <= chars.len(),
            strip_end(chars@.subrange(a as int, to as int), strip.pred()) == strip_end(
                chars@.subrange(a as int, b as int),
                strip.pred(),
            ),
        decreases b - a,
    {
        proof {
            let cur = chars@.subrange(a as int, b as int);
            assert(cur.drop_last() == chars@.subrange(a as int, b - 1));
        }
        b -= 1;
    }
    (a, b)
}

/// `s` with leading and trailing white space removed.
pub fn trim(s: &str) -> (t: String)
    ensures
        t@ == trimmed(s@),
{
    let chars = chars_of(s);
    let (a, b) = strip_bounds(&chars, 0, chars.len(), Strip::WhiteSpace);
    assert(chars@.subrange(0, chars.len() as int) == chars@);
    string_of(&chars, a, b)
}

/// The index of the first occurrence of `c` in `s`, or the length of `s` where
/// `c` does not occur.
pub open spec fn first_index(s: Seq<char>, c: char) -> int
    decreases s.len(),
{
    if s.len() == 0 || s.first() == c {
        0
    } else {
        1 + first_index(s.drop_first(), c)
    }
}

/// `first_index` is the least position that holds `c`, and the length where none does.
pub proof fn lemma_first_index(s: Seq<char>, c: char)
    ensures
        0 <= first_index(s, c) <= s.len(),
        forall|j: int| 0 <= j < first_index(s, c) ==> s[j] != c,
        first_index(s, c) < s.len() ==> s[first_index(s, c)] == c,
    decreases s.len(),
{
    if s.len() == 0 || s.first() == c {
    } else {
        let rest = s.drop_first();
        lemma_first_index(rest, c);
        assert forall|j: int| 0 <= j < first_index(s, c) implies s[j] != c by {
            if j > 0 {
                assert(s[j] == rest[j - 1]);
            }
        }
    }
}

/// A position that holds `c`, or the length, with no `c` before it is the first index.
pub proof fn lemma_first_index_is(s: Seq<char>, c: char, i: int)
    requires
        0 <= i <= s.len(),
        forall|j: int| 0 <= j < i ==> s[j] != c,
        i < s.len() ==> s[i] == c,
    ensures
        first_index(s, c) == i,
{
    lemma_first_index(s, c);
    let k = first_index(s, c);
    if k < i {
        assert(s[k] != c);
    } else if i < k {
        assert(s[i] != c);
    }
}

/// The position of the first `c` in `chars[from..to]`, or `to` where there is none.
pub fn find_char(chars: &Vec<char>, from: usize, to: usize, c: char) -> (at: usize)
    requires
        from <= to <= chars.len(),
    ensures
        from <= at <= to,
        at - from == first_index(chars@.subrange(from as int, to as int), c),
{
    let mut at: usize = from;
    while at < to && chars[at] != c
        invariant
            from <= at <= to <= chars.len(),
            forall|j: int| from <= j < at ==> chars@[j] != c,
        decreases to - at,
    {
        at += 1;
    }
    proof {
        lemma_first_index_is(chars@.subrange(from as int, to as int), c, at - from);
    }
    at
}

/// Whether `c` occurs in `s`.
pub fn contains_char(s: &str, c: char) -> (found: bool)
    ensures
        found == s@.contains(c),
{
    let chars = chars_of(s);
    let at = find_char(&chars, 0, chars.len(), c);
    proof {
        assert(chars@.subrange(0, chars.len() as int) == s@);
        lemma_first_index(s@, c);
    }
    at < chars.len()
}

/// `s` with every `from` replaced by `to`.
pub open spec fn replaced(s: Seq<char>, from: char, to: char) -> Seq<char> {
    s.map_values(|c: char| if c == from { to } else { c })
}

/// `s` with every occurrence of `from` replaced by `to`.
pub fn replace_char(s: &str, from: char, to: char) -> (r: String)
    ensures
        r@ == replaced(s@, from, to),
{
    let mut r = String::new();
    for c in it: s.chars()
        invariant
            it.seq() == s@,
            r@ == replaced(s@.take(it.index()), from, to),
    {
        proof {
            let i = it.index();
            assert(s@.take(i + 1) == s@.take(i).push(s@[i]));
            assert(replaced(s@.take(i + 1), from, to) == replaced(s@.take(i), from, to).push(
                if c == from { to } else { c },
            ));
        }
        push_char(&mut r, if c == from { to } else { c });
    }
    proof {
        assert(s@.take(s@.len() as int) == s@);
    }
    r
}

/// `s` without the occurrences of `c`.
pub open spec fn without(s: Seq<char>, c: char) -> Seq<char> {
    s.filter(|x: char| x != c)
}

/// `s` with every occurrence of `c` removed.
pub fn remove_char(s: &str, c: char) -> (r: String)
    ensures
        r@ == without(s@, c),
{
    let mut r = String::new();
    for x in it: s.chars()
        invariant
            it.seq() == s@,
            r@ == without(s@.take(it.index()), c),
    {
        proof {
            let i = it.index();
            assert(s@.take(i + 1) == s@.take(i).push(s@[i]));
            assert(s@.take(i + 1).drop_last() == s@.take(i));
            reveal(Seq::filter);
        }
        if x != c {
            push_char(&mut r, x);
        }
    }
    proof {
        assert(s@.take(s@.len() as int) == s@);
    }
    r
}

/// Whether `a` and `b` are equal once both are put in lowercase.
pub fn eq_ignore_case(a: &str, b: &str) -> (same: bool)
    ensures
        same == (lowercase(a@) == lowercase(b@)),
{
    let la = to_lowercase(a);
    let lb = to_lowercase(b);
    la == lb
}

/// `a` followed by `b`.
pub fn join2(a: &str, b: &str) -> (s: String)
    ensures
        s@ == a@ + b@,
{
    let mut s = String::from_str(a);
    s.append(b);
    s
}

/// `a`, `b` and `c` one after the other.
pub fn join3(a: &str, b: &str, c: &str) -> (s: String)
    ensures
        s@ == a@ + b@ + c@,
{
    let mut s = String::from_str(a);
    s.append(b);
    s.append(c);
    s
}

/// `a`, `b`, `c` and `d` one after the other.
pub fn join4(a: &str, b: &str, c: &str, d: &str) -> (s: String)
    ensures
        s@ == a@ + b@ + c@ + d@,
{
    let mut s = String::from_str(a);
    s.append(b);
    s.append(c);
    s.append(d);
    s
}

/// `a`, `b`, `c`, `d` and `e` one after the other.
pub fn join5(a: &str, b: &str, c: &str, d: &str, e: &str) -> (s: String)
    ensures
        s@ == a@ + b@ + c@ + d@ + e@,
{
    let mut s = String::from_str(a);
    s.append(b);
    s.append(c);
    s.append(d);
    s.append(e);
    s
}

/// Whether `s` begins with `prefix`.
pub open spec fn has_prefix(s: Seq<char>, prefix: Seq<char>) -> bool {
    prefix.len() <= s.len() && s.take(prefix.len() as int) == prefix
}

/// Whether `needle` occurs in `hay` at position `at`.
pub open spec fn occurs_at(hay: Seq<char>, needle: Seq<char>, at: int) -> bool {
    0 <= at && at + needle.len() <= hay.len() && hay.subrange(at, at + needle.len()) == needle
}

/// Whether `needle` occurs somewhere in `hay`.
pub open spec fn has_substring(hay: Seq<char>, needle: Seq<char>) -> bool {
    exists|at: int| occurs_at(hay, needle, at)
}

/// Whether `needle` occurs in `hay[from..to]` at the position `at` of `hay`.
pub fn matches_at(hay: &Vec<char>, from: usize, to: usize, needle: &Vec<char>, at: usize) -> (found:
    bool)
    requires
        from <= at <= to <= hay.len(),
    ensures
        found == occurs_at(hay@.subrange(from as int, to as int), needle@, at - from),
{
    if needle.len() > to - at {
        return false;
    }
    let ghost part = hay@.subrange(from as int, to as int);
    let ghost window = part.subrange(at - from, at - from + needle.len());
    let mut k: usize = 0;
    while k < needle.len()
        invariant
            from <= at <= to <= hay.len(),
            needle.len() <= to - at,
            k <= needle.len(),
            part == hay@.subrange(from as int, to as int),
            window == part.subrange(at - from, at - from + needle.len()),
            forall|j: int| 0 <= j < k ==> window[j] == needle@[j],
        decreases needle.len() - k,
    {
        if hay[at + k] != needle[k] {
            assert(window[k as int] != needle@[k as int]);
            return false;
        }
        k += 1;
    }
    assert(window =~= needle@);
    true
}

/// Whether `s` begins with `prefix`.
pub fn starts_with(s: &str, prefix: &str) -> (found: bool)
    ensures
        found == has_prefix(s@, prefix@),
{
    let hay = chars_of(s);
    let needle = chars_of(prefix);
    assert(hay@.subrange(0, hay.len() as int) == hay@);
    let found = matches_at(&hay, 0, hay.len(), &needle, 0);
    assert(hay@.subrange(0, needle.len() as int) == hay@.take(needle.len() as int));
    found
}

/// Whether `needle` occurs somewhere in `hay[from..to]`.
pub fn contains_in(hay: &Vec<char>, from: usize, to: usize, needle: &Vec<char>) -> (found: bool)
    requires
        from <= to <= hay.len(),
    ensures
        found == has_substring(hay@.subrange(from as int, to as int), needle@),
{
    let ghost part = hay@.subrange(from as int, to as int);
    let mut at: usize = from;
    while at < to
        invariant
            from <= at <= to <= hay.len(),
            part == hay@.subrange(from as int, to as int),
            forall|j: int| 0 <= j < at - from ==> !occurs_at(part, needle@, j),
        decreases to - at,
    {
        if matches_at(hay, from, to, needle, at) {
            return true;
        }
        at += 1;
    }
    let found = matches_at(hay, from, to, needle, to);
    if !found {
        assert forall|j: int| !occurs_at(part, needle@, j) by {
            if 0 <= j && j + needle@.len() <= part.len() {
                assert(j <= to - from);
            }
        }
    }
    found
}

/// Whether `needle` occurs somewhere in `hay`.
pub fn contains(hay: &str, needle: &str) -> (found: bool)
    ensures
        found == has_substring(hay@, needle@),
{
    let h = chars_of(hay);
    let n = chars_of(needle);
    assert(h@.subrange(0, h.len() as int) == h@);
    contains_in(&h, 0, h.len(), &n)
}

/// `line` without one carriage return at its end.
pub open spec fn without_cr(line: Seq<char>) -> Seq<char> {
    if line.len() > 0 && line.last() == '\r' {
        line.drop_last()
    } else {
        line
    }
}

/// The first line of `s`: nothing for an empty text; else what stands before
/// the first line feed, less a carriage return right before it, or all of `s`
/// where it holds no line feed.
pub open spec fn first_line(s: Seq<char>) -> Option<Seq<char>> {
    if s.len() == 0 {
        None
    } else if first_index(s, '\n') == s.len() {
        Some(s)
    } else {
        Some(without_cr(s.take(first_index(s, '\n'))))
    }
}

/// The end of the line that begins at `from` in `chars[..to]`, less its
/// carriage return, where a line feed at `feed` ends it.
pub fn line_end(chars: &Vec<char>, from: usize, feed: usize) -> (end: usize)
    requires
        from <= feed <= chars.len(),
    ensures
        from <= end <= feed,
        chars@.subrange(from as int, end as int) == without_cr(
            chars@.subrange(from as int, feed as int),
        ),
{
    if feed > from && chars[feed - 1] == '\r' {
        assert(chars@.subrange(from as int, feed as int).drop_last() == chars@.subrange(
            from as int,
            feed - 1,
        ));
        feed - 1
    } else {
        feed
    }
}

} // verus!
