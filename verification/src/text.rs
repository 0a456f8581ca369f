//! Character sequences: the operations on text that the rest of the crate is
//! stated in, and executable versions of them on string slices.

use vstd::prelude::*;
use vstd::string::*;

verus! {

/// `pat` stands in `s` at index `at`.
pub open spec fn found_at(s: Seq<char>, pat: Seq<char>, at: int) -> bool {
    &&& 0 <= at
    &&& at + pat.len() <= s.len()
    &&& s.subrange(at, at + pat.len()) =~= pat
}

/// `pat` stands somewhere in `s`.
pub open spec fn found_in(s: Seq<char>, pat: Seq<char>) -> bool {
    exists|at: int| found_at(s, pat, at)
}

/// What is left of `s` once the leading `pat` is taken off, if `s` begins
/// with `pat`.
pub open spec fn without_prefix(s: Seq<char>, pat: Seq<char>) -> Option<Seq<char>> {
    if pat.is_prefix_of(s) {
        Some(s.skip(pat.len() as int))
    } else {
        None
    }
}

/// What is left of `s` once the trailing `pat` is taken off, if `s` ends
/// with `pat`.
pub open spec fn without_suffix(s: Seq<char>, pat: Seq<char>) -> Option<Seq<char>> {
    if pat.is_suffix_of(s) {
        Some(s.take(s.len() - pat.len()))
    } else {
        None
    }
}

/// `s` with `to` in the place of every `from`.
pub open spec fn replaced(s: Seq<char>, from: char, to: Seq<char>) -> Seq<char>
    decreases s.len(),
{
    if s.len() == 0 {
        s
    } else if s.last() == from {
        replaced(s.drop_last(), from, to) + to
    } else {
        replaced(s.drop_last(), from, to).push(s.last())
    }
}

/// An ASCII capital becomes its small letter; every other character stays.
pub open spec fn ascii_lower(c: char) -> char {
    if 'A' <= c && c <= 'Z' {
        ((c as u32) + 32) as char
    } else {
        c
    }
}

/// `s` with each ASCII capital made small.
pub open spec fn lowered(s: Seq<char>) -> Seq<char> {
    Seq::new(s.len(), |i: int| ascii_lower(s[i]))
}

/// Replacing goes piece by piece: what it makes of `a + b` is what it makes
/// of `a`, followed by what it makes of `b`.
pub proof fn lemma_replaced_concat(a: Seq<char>, b: Seq<char>, from: char, to: Seq<char>)
    ensures
        replaced(a + b, from, to) == replaced(a, from, to) + replaced(b, from, to),
    decreases b.len(),
{
    if b.len() == 0 {
        assert(a + b == a);
    } else {
        assert((a + b).drop_last() == a + b.drop_last());
        lemma_replaced_concat(a, b.drop_last(), from, to);
    }
}

/// Replacing leaves a text without `from` as it is.
pub proof fn lemma_replaced_absent(s: Seq<char>, from: char, to: Seq<char>)
    requires
        !s.contains(from),
    ensures
        replaced(s, from, to) == s,
    decreases s.len(),
{
    if s.len() > 0 {
        assert(s.last() == s[s.len() - 1]);
        assert forall|c: char| s.drop_last().contains(c) implies s.contains(c) by {
            let i = choose|i: int| 0 <= i < s.drop_last().len() && s.drop_last()[i] == c;
            assert(s[i] == c);
        }
        lemma_replaced_absent(s.drop_last(), from, to);
        assert(s.drop_last().push(s.last()) == s);
    }
}

/// Replacing turns `from` alone into `to`.
pub proof fn lemma_replaced_one(from: char, to: Seq<char>)
    ensures
        replaced(seq![from], from, to) == to,
{
    assert(seq![from].drop_last() == Seq::<char>::empty());
    assert(replaced(Seq::<char>::empty(), from, to) + to == to);
}

/// What stands in a part of a text stands in the text.
pub proof fn lemma_found_in_part(
    before: Seq<char>,
    part: Seq<char>,
    after: Seq<char>,
    pat: Seq<char>,
)
    requires
        found_in(part, pat),
    ensures
        found_in(before + part + after, pat),
{
    let at = choose|at: int| found_at(part, pat, at);
    let whole = before + part + after;
    assert(whole.subrange(before.len() + at, before.len() + at + pat.len()) =~= part.subrange(
        at,
        at + pat.len(),
    ));
    assert(found_at(whole, pat, before.len() + at));
}

/// The characters of `s`, in order.
pub fn chars_of(s: &str) -> (out: Vec<char>)
    ensures
        out@ == s@,
{
    let mut out: Vec<char> = Vec::new();
    for c in it: s.chars()
        invariant
            out@ == it.seq().take(it.index() as int),
            it.seq() == s@,
    {
        out.push(c);
    }
    out
}

/// The small letter of an ASCII capital; any other character as it is.
pub fn to_ascii_lower(c: char) -> (out: char)
    ensures
        out == ascii_lower(c),
{
    if 'A' <= c && c <= 'Z' {
        ((c as u8) + 32) as char
    } else {
        c
    }
}

/// Whether `pat` stands in `s` at index `at`.
pub fn matches_at(s: &[char], pat: &[char], at: usize) -> (found: bool)
    ensures
        found == found_at(s@, pat@, at as int),
{
    if at > s.len() || pat.len() > s.len() - at {
        return false;
    }
    let mut k: usize = 0;
    while k < pat.len()
        invariant
            k <= pat.len(),
            at + pat.len() <= s.len(),
            forall|j: int| 0 <= j < k ==> s@[at + j] == pat@[j],
        decreases pat.len() - k,
    {
        if s[at + k] != pat[k] {
            assert(s@.subrange(at as int, at + pat.len())[k as int] != pat@[k as int]);
            return false;
        }
        k += 1;
    }
    true
}

/// `s` without its leading `pat`, where it begins with `pat`.
pub fn strip_prefix<'a>(s: &'a str, pat: &str) -> (rest: Option<&'a str>)
    ensures
        match rest {
            Some(r) => without_prefix(s@, pat@) == Some(r@),
            None => without_prefix(s@, pat@) is None,
        },
{
    let chars = chars_of(s);
    let lead = chars_of(pat);
    if matches_at(chars.as_slice(), lead.as_slice(), 0) {
        Some(s.substring_char(lead.len(), chars.len()))
    } else {
        None
    }
}

/// `s` without its trailing `pat`, where it ends with `pat`.
pub fn strip_suffix<'a>(s: &'a str, pat: &str) -> (rest: Option<&'a str>)
    ensures
        match rest {
            Some(r) => without_suffix(s@, pat@) == Some(r@),
            None => without_suffix(s@, pat@) is None,
        },
{
    let chars = chars_of(s);
    let tail = chars_of(pat);
    if tail.len() <= chars.len() && matches_at(
        chars.as_slice(),
        tail.as_slice(),
        chars.len() - tail.len(),
    ) {
        Some(s.substring_char(0, chars.len() - tail.len()))
    } else {
        None
    }
}

/// Whether `pat` stands somewhere in `s`.
pub fn contains(s: &str, pat: &str) -> (found: bool)
    ensures
        found == found_in(s@, pat@),
{
    let chars = chars_of(s);
    let part = chars_of(pat);
    if part.len() > chars.len() {
        return false;
    }
    let last: usize = chars.len() - part.len();
    let mut at: usize = 0;
    while at <= last
        invariant
            at <= last + 1,
            last == chars.len() - part.len(),
            chars@ == s@,
            part@ == pat@,
            forall|j: int| 0 <= j < at ==> !found_at(s@, pat@, j),
        decreases last + 1 - at,
    {
        if matches_at(chars.as_slice(), part.as_slice(), at) {
            return true;
        }
        at += 1;
    }
    false
}

/// `s` with `to` in the place of every `from`.
pub fn replace(s: &str, from: char, to: &str) -> (out: String)
    ensures
        out@ == replaced(s@, from, to@),
{
    let chars = chars_of(s);
    let mut out = String::new();
    let mut start: usize = 0;
    let mut at: usize = 0;
    while at < chars.len()
        invariant
            start <= at <= chars.len(),
            chars@ == s@,
            out@ + s@.subrange(start as int, at as int) == replaced(s@.take(at as int), from, to@),
        decreases chars.len() - at,
    {
        proof {
            assert(s@.take(at + 1).drop_last() == s@.take(at as int));
            assert(s@.subrange(start as int, at + 1) == s@.subrange(start as int, at as int).push(
                s@[at as int],
            ));
        }
        if chars[at] == from {
            out.append(s.substring_char(start, at));
            out.append(to);
            start = at + 1;
        }
        at += 1;
    }
    out.append(s.substring_char(start, at));
    assert(s@.take(at as int) == s@);
    out
}

/// Whether `s` reads as `small` once its ASCII capitals are made small.
pub fn reads_as(s: &str, small: &str) -> (same: bool)
    ensures
        same == (lowered(s@) == small@),
{
    let chars = chars_of(s);
    let want = chars_of(small);
    if chars.len() != want.len() {
        return false;
    }
    let mut k: usize = 0;
    while k < chars.len()
        invariant
            k <= chars.len(),
            chars.len() == want.len(),
            chars@ == s@,
            want@ == small@,
            forall|j: int| 0 <= j < k ==> ascii_lower(s@[j]) == small@[j],
        decreases chars.len() - k,
    {
        if to_ascii_lower(chars[k]) != want[k] {
            assert(lowered(s@)[k as int] != small@[k as int]);
            return false;
        }
        k += 1;
    }
    assert(lowered(s@) =~= small@);
    true
}

} // verus!
